//! Descriptors of types of other crates: a string that is stored inline,
//! byte strings, and UUIDs.

use vstd::prelude::*;
use vstd::string::StringExecFns;
use crate::error::SchemaError;
use crate::fog::{
    bin_build, bin_built, bin_max_len, bin_max_len_set, bin_min_len, bin_min_len_set, bin_new,
    bin_nin_add, bin_nin_added,
};
use crate::generator::{FogValidate, SchemaGenerator};
use crate::name::{plain_name, Name};
use crate::tree::ValidatorTree;

verus! {

/// `smol_str`'s string.
#[verifier::external_type_specification]
#[verifier::external_body]
pub struct ExSmolStr(smol_str::SmolStr);

/// `bytes`' shared byte string.
#[verifier::external_type_specification]
#[verifier::external_body]
pub struct ExBytes(bytes::Bytes);

/// `bytes`' byte string that can grow.
#[verifier::external_type_specification]
#[verifier::external_body]
pub struct ExBytesMut(bytes::BytesMut);

/// `uuid`'s UUID.
#[verifier::external_type_specification]
#[verifier::external_body]
pub struct ExUuid(uuid::Uuid);

/// The bytes of the UUID that `uuid`'s `Uuid::default` gives, by its
/// `as_bytes`: the nil UUID, 16 bytes that are all zero.
#[verifier::external_body]
fn default_uuid_bytes() -> (bytes: Vec<u8>)
    ensures
        bytes@ == Seq::new(16, |i: int| 0u8),
{
    uuid::Uuid::default().as_bytes().to_vec()
}

/// The validator of the byte strings, of those that are not empty where
/// `opt` is set, as fog-pack builds it from the validator of byte strings
/// `start`.
pub open spec fn bytes_leaf(
    start: fog_pack::validator::BinValidator,
    opt: bool,
) -> fog_pack::validator::Validator {
    bin_built(
        if opt {
            bin_min_len_set(start, 1)
        } else {
            start
        },
    )
}

/// The validator of the byte strings of 16 bytes, without the nil UUID
/// where `opt` is set, as fog-pack builds it from the validator of byte
/// strings `start`.
pub open spec fn uuid_leaf(
    start: fog_pack::validator::BinValidator,
    opt: bool,
) -> fog_pack::validator::Validator {
    let sized = bin_max_len_set(bin_min_len_set(start, 16), 16);
    bin_built(
        if opt {
            bin_nin_added(sized, Seq::new(16, |i: int| 0u8))
        } else {
            sized
        },
    )
}

/// The validator of all byte strings; of those that are not empty where
/// `opt` is set: what fog-pack builds from the validator of all byte
/// strings, as `bytes_leaf` says.
fn bytes_validator(opt: bool) -> (validator: ValidatorTree)
    ensures
        validator matches ValidatorTree::Leaf(leaf) && exists|
            start: fog_pack::validator::BinValidator,
        | leaf == #[trigger] bytes_leaf(start, opt),
{
    let start = bin_new();
    let ghost begun = start;
    let bounded = if opt {
        bin_min_len(start, 1)
    } else {
        start
    };
    let leaf = bin_build(bounded);
    assert(leaf == bytes_leaf(begun, opt));
    ValidatorTree::Leaf(leaf)
}

impl FogValidate for smol_str::SmolStr {
    fn origin(opt: bool) -> (marker: String)
        ensures
            call_ensures(<str as FogValidate>::origin, (opt,), marker),
    {
        <str as FogValidate>::origin(opt)
    }

    fn should_reference(opt: bool) -> (shared: bool)
        ensures
            call_ensures(<str as FogValidate>::should_reference, (opt,), shared),
    {
        <str as FogValidate>::should_reference(opt)
    }

    fn has_opt() -> (differs: bool)
        ensures
            call_ensures(<str as FogValidate>::has_opt, (), differs),
    {
        <str as FogValidate>::has_opt()
    }

    fn validator_name(opt: bool) -> (name: Name)
        ensures
            call_ensures(<str as FogValidate>::validator_name, (opt,), name),
    {
        <str as FogValidate>::validator_name(opt)
    }

    /// The validator that the other descriptor computes, with what that
    /// does to the generator.
    fn validator(gen: &mut SchemaGenerator, opt: bool) -> (validator: Result<
        ValidatorTree,
        SchemaError,
    >)
        ensures
            exists|inner: &mut SchemaGenerator|
                *inner == *old(gen) && *final(inner) == *final(gen) && #[trigger] call_ensures(
                    <str as FogValidate>::validator,
                    (inner, opt),
                    validator,
                ),
    {
        <str as FogValidate>::validator(gen, opt)
    }
}

impl FogValidate for bytes::Bytes {
    fn origin(opt: bool) -> (marker: String)
        ensures
            marker@ == "bytes::Bytes"@,
    {
        String::from_str("bytes::Bytes")
    }

    fn should_reference(opt: bool) -> (shared: bool)
        ensures
            !shared,
    {
        false
    }

    fn has_opt() -> (differs: bool)
        ensures
            differs,
    {
        true
    }

    fn validator_name(opt: bool) -> (name: Name)
        ensures
            name@ == plain_name(
                "bytes"@,
                if opt {
                    "OptBytes"@
                } else {
                    "Bytes"@
                },
            ),
    {
        proof {
            reveal_strlit("bytes");
            reveal_strlit("OptBytes");
            reveal_strlit("Bytes");
        }
        Name::new(
            "bytes",
            if opt {
                "OptBytes"
            } else {
                "Bytes"
            },
        )
    }

    /// All byte strings; all but the empty one where `opt` is set: what
    /// fog-pack builds from the validator of all byte strings, as
    /// `bytes_leaf` says.
    fn validator(gen: &mut SchemaGenerator, opt: bool) -> (validator: Result<
        ValidatorTree,
        SchemaError,
    >)
        ensures
            *final(gen) == *old(gen),
            validator matches Ok(ValidatorTree::Leaf(leaf)) && exists|
                start: fog_pack::validator::BinValidator,
            | leaf == #[trigger] bytes_leaf(start, opt),
    {
        Ok(bytes_validator(opt))
    }
}

impl FogValidate for bytes::BytesMut {
    fn origin(opt: bool) -> (marker: String)
        ensures
            call_ensures(<bytes::Bytes as FogValidate>::origin, (opt,), marker),
    {
        <bytes::Bytes as FogValidate>::origin(opt)
    }

    fn should_reference(opt: bool) -> (shared: bool)
        ensures
            call_ensures(<bytes::Bytes as FogValidate>::should_reference, (opt,), shared),
    {
        <bytes::Bytes as FogValidate>::should_reference(opt)
    }

    fn has_opt() -> (differs: bool)
        ensures
            call_ensures(<bytes::Bytes as FogValidate>::has_opt, (), differs),
    {
        <bytes::Bytes as FogValidate>::has_opt()
    }

    fn validator_name(opt: bool) -> (name: Name)
        ensures
            call_ensures(<bytes::Bytes as FogValidate>::validator_name, (opt,), name),
    {
        <bytes::Bytes as FogValidate>::validator_name(opt)
    }

    /// The validator that the other descriptor computes, with what that
    /// does to the generator.
    fn validator(gen: &mut SchemaGenerator, opt: bool) -> (validator: Result<
        ValidatorTree,
        SchemaError,
    >)
        ensures
            exists|inner: &mut SchemaGenerator|
                *inner == *old(gen) && *final(inner) == *final(gen) && #[trigger] call_ensures(
                    <bytes::Bytes as FogValidate>::validator,
                    (inner, opt),
                    validator,
                ),
    {
        <bytes::Bytes as FogValidate>::validator(gen, opt)
    }
}

impl FogValidate for uuid::Uuid {
    fn origin(opt: bool) -> (marker: String)
        ensures
            marker@ == "uuid::Uuid"@,
    {
        String::from_str("uuid::Uuid")
    }

    fn should_reference(opt: bool) -> (shared: bool)
        ensures
            !shared,
    {
        false
    }

    fn has_opt() -> (differs: bool)
        ensures
            differs,
    {
        true
    }

    fn validator_name(opt: bool) -> (name: Name)
        ensures
            name@ == plain_name(
                "uuid"@,
                if opt {
                    "OptUuid"@
                } else {
                    "Uuid"@
                },
            ),
    {
        proof {
            reveal_strlit("uuid");
            reveal_strlit("OptUuid");
            reveal_strlit("Uuid");
        }
        Name::new(
            "uuid",
            if opt {
                "OptUuid"
            } else {
                "Uuid"
            },
        )
    }

    /// The byte strings of 16 bytes; without the nil UUID where `opt` is
    /// set: what fog-pack builds from the validator of all byte strings, as
    /// `uuid_leaf` says.
    fn validator(gen: &mut SchemaGenerator, opt: bool) -> (validator: Result<
        ValidatorTree,
        SchemaError,
    >)
        ensures
            *final(gen) == *old(gen),
            validator matches Ok(ValidatorTree::Leaf(leaf)) && exists|
                start: fog_pack::validator::BinValidator,
            | leaf == #[trigger] uuid_leaf(start, opt),
    {
        let start = bin_new();
        let ghost begun = start;
        let sized = bin_max_len(bin_min_len(start, 16), 16);
        let banned = if opt {
            bin_nin_add(sized, default_uuid_bytes())
        } else {
            sized
        };
        let leaf = bin_build(banned);
        assert(leaf == uuid_leaf(begun, opt));
        Ok(ValidatorTree::Leaf(leaf))
    }
}

} // verus!
