//! Descriptors of fog-pack's own types. None of them is shared.

use vstd::prelude::*;
use vstd::string::StringExecFns;
use crate::error::SchemaError;
use crate::fog::{
    data_lockbox_build, data_lockbox_built, data_lockbox_new, hash_new, identity_build,
    identity_built, identity_lockbox_build, identity_lockbox_built, identity_lockbox_new,
    identity_new, int_build, int_built, int_new, int_nin_add, int_nin_added, lock_id_build,
    lock_id_built, lock_id_new, lock_lockbox_build, lock_lockbox_built, lock_lockbox_new,
    stream_id_build, stream_id_built, stream_id_new, stream_lockbox_build, stream_lockbox_built,
    stream_lockbox_new, time_build, time_built, time_new,
};
use crate::generator::{FogValidate, SchemaGenerator};
use crate::name::{plain_name, Name};
use crate::tree::ValidatorTree;

verus! {

/// The validator of the integers, without zero where `opt` is set, as
/// fog-pack builds it from the integer validator `start`.
pub open spec fn integer_leaf(
    start: fog_pack::validator::IntValidator,
    opt: bool,
) -> fog_pack::validator::Validator {
    int_built(
        if opt {
            int_nin_added(start, 0)
        } else {
            start
        },
    )
}

impl FogValidate for fog_pack::types::Integer {
    fn origin(opt: bool) -> (marker: String)
        ensures
            marker@ == "fog_pack::types::Integer"@,
    {
        String::from_str("fog_pack::types::Integer")
    }

    fn should_reference(opt: bool) -> (shared: bool)
        ensures
            !shared,
    {
        false
    }

    fn has_opt() -> (differs: bool)
        ensures
            differs,
    {
        true
    }

    fn validator_name(opt: bool) -> (name: Name)
        ensures
            name@ == plain_name(
                "fog_pack::types"@,
                if opt {
                    "OptInteger"@
                } else {
                    "Integer"@
                },
            ),
    {
        proof {
            reveal_strlit("fog_pack::types");
            reveal_strlit("OptInteger");
            reveal_strlit("Integer");
        }
        Name::new(
            "fog_pack::types",
            if opt {
                "OptInteger"
            } else {
                "Integer"
            },
        )
    }

    /// All integers; without zero where `opt` is set: what fog-pack builds
    /// from the validator of all integers, as `integer_leaf` says.
    fn validator(gen: &mut SchemaGenerator, opt: bool) -> (validator: Result<
        ValidatorTree,
        SchemaError,
    >)
        ensures
            *final(gen) == *old(gen),
            validator matches Ok(ValidatorTree::Leaf(leaf)) && exists|
                start: fog_pack::validator::IntValidator,
            | leaf == #[trigger] integer_leaf(start, opt),
    {
        let start = int_new();
        let ghost begun = start;
        let banned = if opt {
            int_nin_add(start, 0)
        } else {
            start
        };
        let leaf = int_build(banned);
        assert(leaf == integer_leaf(begun, opt));
        Ok(ValidatorTree::Leaf(leaf))
    }
}

impl FogValidate for fog_pack::types::Value {
    fn origin(opt: bool) -> (marker: String)
        ensures
            marker@ == "fog_pack::types::Value"@,
    {
        String::from_str("fog_pack::types::Value")
    }

    fn should_reference(opt: bool) -> (shared: bool)
        ensures
            !shared,
    {
        false
    }

    fn has_opt() -> (differs: bool)
        ensures
            !differs,
    {
        false
    }

    fn validator_name(opt: bool) -> (name: Name)
        ensures
            name@ == plain_name("fog_pack::types"@, "Value"@),
    {
        proof {
            reveal_strlit("fog_pack::types");
            reveal_strlit("Value");
        }
        Name::new("fog_pack::types", "Value")
    }

    /// Any value.
    fn validator(gen: &mut SchemaGenerator, opt: bool) -> (validator: Result<
        ValidatorTree,
        SchemaError,
    >)
        ensures
            *final(gen) == *old(gen),
            validator matches Ok(ValidatorTree::Any),
    {
        Ok(ValidatorTree::Any)
    }
}

impl<'a> FogValidate for fog_pack::types::ValueRef<'a> {
    fn origin(opt: bool) -> (marker: String)
        ensures
            call_ensures(<fog_pack::types::Value as FogValidate>::origin, (opt,), marker),
    {
        <fog_pack::types::Value as FogValidate>::origin(opt)
    }

    fn should_reference(opt: bool) -> (shared: bool)
        ensures
            call_ensures(<fog_pack::types::Value as FogValidate>::should_reference, (opt,), shared),
    {
        <fog_pack::types::Value as FogValidate>::should_reference(opt)
    }

    fn has_opt() -> (differs: bool)
        ensures
            call_ensures(<fog_pack::types::Value as FogValidate>::has_opt, (), differs),
    {
        <fog_pack::types::Value as FogValidate>::has_opt()
    }

    fn validator_name(opt: bool) -> (name: Name)
        ensures
            call_ensures(<fog_pack::types::Value as FogValidate>::validator_name, (opt,), name),
    {
        <fog_pack::types::Value as FogValidate>::validator_name(opt)
    }

    /// The validator that the other descriptor computes, with what that
    /// does to the generator.
    fn validator(gen: &mut SchemaGenerator, opt: bool) -> (validator: Result<
        ValidatorTree,
        SchemaError,
    >)
        ensures
            exists|inner: &mut SchemaGenerator|
                *inner == *old(gen) && *final(inner) == *final(gen) && #[trigger] call_ensures(
                    <fog_pack::types::Value as FogValidate>::validator,
                    (inner, opt),
                    validator,
                ),
    {
        <fog_pack::types::Value as FogValidate>::validator(gen, opt)
    }
}

impl FogValidate for fog_pack::types::Hash {
    fn origin(opt: bool) -> (marker: String)
        ensures
            marker@ == "fog_pack::types::Hash"@,
    {
        String::from_str("fog_pack::types::Hash")
    }

    fn should_reference(opt: bool) -> (shared: bool)
        ensures
            !shared,
    {
        false
    }

    fn has_opt() -> (differs: bool)
        ensures
            !differs,
    {
        false
    }

    fn validator_name(opt: bool) -> (name: Name)
        ensures
            name@ == plain_name("fog_pack::types"@, "Hash"@),
    {
        proof {
            reveal_strlit("fog_pack::types");
            reveal_strlit("Hash");
        }
        Name::new("fog_pack::types", "Hash")
    }

    /// Any hash.
    fn validator(gen: &mut SchemaGenerator, opt: bool) -> (validator: Result<
        ValidatorTree,
        SchemaError,
    >)
        ensures
            *final(gen) == *old(gen),
            validator matches Ok(ValidatorTree::Hash { link, rules }) && link is None,
    {
        Ok(ValidatorTree::Hash { link: None, rules: hash_new() })
    }
}

impl FogValidate for fog_pack::types::Identity {
    fn origin(opt: bool) -> (marker: String)
        ensures
            marker@ == "fog_pack::types::Identity"@,
    {
        String::from_str("fog_pack::types::Identity")
    }

    fn should_reference(opt: bool) -> (shared: bool)
        ensures
            !shared,
    {
        false
    }

    fn has_opt() -> (differs: bool)
        ensures
            !differs,
    {
        false
    }

    fn validator_name(opt: bool) -> (name: Name)
        ensures
            name@ == plain_name("fog_pack::types"@, "Identity"@),
    {
        proof {
            reveal_strlit("fog_pack::types");
            reveal_strlit("Identity");
        }
        Name::new("fog_pack::types", "Identity")
    }

    /// What fog-pack builds from its validator of all identities.
    fn validator(gen: &mut SchemaGenerator, opt: bool) -> (validator: Result<
        ValidatorTree,
        SchemaError,
    >)
        ensures
            *final(gen) == *old(gen),
            validator matches Ok(ValidatorTree::Leaf(leaf)) && exists|
                start: fog_pack::validator::IdentityValidator,
            | leaf == #[trigger] identity_built(start),
    {
        Ok(ValidatorTree::Leaf(identity_build(identity_new())))
    }
}

impl FogValidate for fog_pack::types::StreamId {
    fn origin(opt: bool) -> (marker: String)
        ensures
            marker@ == "fog_pack::types::StreamId"@,
    {
        String::from_str("fog_pack::types::StreamId")
    }

    fn should_reference(opt: bool) -> (shared: bool)
        ensures
            !shared,
    {
        false
    }

    fn has_opt() -> (differs: bool)
        ensures
            !differs,
    {
        false
    }

    fn validator_name(opt: bool) -> (name: Name)
        ensures
            name@ == plain_name("fog_pack::types"@, "StreamId"@),
    {
        proof {
            reveal_strlit("fog_pack::types");
            reveal_strlit("StreamId");
        }
        Name::new("fog_pack::types", "StreamId")
    }

    /// What fog-pack builds from its validator of all stream identifiers.
    fn validator(gen: &mut SchemaGenerator, opt: bool) -> (validator: Result<
        ValidatorTree,
        SchemaError,
    >)
        ensures
            *final(gen) == *old(gen),
            validator matches Ok(ValidatorTree::Leaf(leaf)) && exists|
                start: fog_pack::validator::StreamIdValidator,
            | leaf == #[trigger] stream_id_built(start),
    {
        Ok(ValidatorTree::Leaf(stream_id_build(stream_id_new())))
    }
}

impl FogValidate for fog_pack::types::LockId {
    fn origin(opt: bool) -> (marker: String)
        ensures
            marker@ == "fog_pack::types::LockId"@,
    {
        String::from_str("fog_pack::types::LockId")
    }

    fn should_reference(opt: bool) -> (shared: bool)
        ensures
            !shared,
    {
        false
    }

    fn has_opt() -> (differs: bool)
        ensures
            !differs,
    {
        false
    }

    fn validator_name(opt: bool) -> (name: Name)
        ensures
            name@ == plain_name("fog_pack::types"@, "LockId"@),
    {
        proof {
            reveal_strlit("fog_pack::types");
            reveal_strlit("LockId");
        }
        Name::new("fog_pack::types", "LockId")
    }

    /// What fog-pack builds from its validator of all lock identifiers.
    fn validator(gen: &mut SchemaGenerator, opt: bool) -> (validator: Result<
        ValidatorTree,
        SchemaError,
    >)
        ensures
            *final(gen) == *old(gen),
            validator matches Ok(ValidatorTree::Leaf(leaf)) && exists|
                start: fog_pack::validator::LockIdValidator,
            | leaf == #[trigger] lock_id_built(start),
    {
        Ok(ValidatorTree::Leaf(lock_id_build(lock_id_new())))
    }
}

impl FogValidate for fog_pack::types::Timestamp {
    fn origin(opt: bool) -> (marker: String)
        ensures
            marker@ == "fog_pack::types::Timestamp"@,
    {
        String::from_str("fog_pack::types::Timestamp")
    }

    fn should_reference(opt: bool) -> (shared: bool)
        ensures
            !shared,
    {
        false
    }

    fn has_opt() -> (differs: bool)
        ensures
            !differs,
    {
        false
    }

    fn validator_name(opt: bool) -> (name: Name)
        ensures
            name@ == plain_name("fog_pack::types"@, "Timestamp"@),
    {
        proof {
            reveal_strlit("fog_pack::types");
            reveal_strlit("Timestamp");
        }
        Name::new("fog_pack::types", "Timestamp")
    }

    /// What fog-pack builds from its validator of all timestamps.
    fn validator(gen: &mut SchemaGenerator, opt: bool) -> (validator: Result<
        ValidatorTree,
        SchemaError,
    >)
        ensures
            *final(gen) == *old(gen),
            validator matches Ok(ValidatorTree::Leaf(leaf)) && exists|
                start: fog_pack::validator::TimeValidator,
            | leaf == #[trigger] time_built(start),
    {
        Ok(ValidatorTree::Leaf(time_build(time_new())))
    }
}

impl FogValidate for fog_pack::types::DataLockbox {
    fn origin(opt: bool) -> (marker: String)
        ensures
            marker@ == "fog_pack::types::DataLockbox"@,
    {
        String::from_str("fog_pack::types::DataLockbox")
    }

    fn should_reference(opt: bool) -> (shared: bool)
        ensures
            !shared,
    {
        false
    }

    fn has_opt() -> (differs: bool)
        ensures
            !differs,
    {
        false
    }

    fn validator_name(opt: bool) -> (name: Name)
        ensures
            name@ == plain_name("fog_pack::types"@, "DataLockbox"@),
    {
        proof {
            reveal_strlit("fog_pack::types");
            reveal_strlit("DataLockbox");
        }
        Name::new("fog_pack::types", "DataLockbox")
    }

    /// What fog-pack builds from its validator of all data lockboxes.
    fn validator(gen: &mut SchemaGenerator, opt: bool) -> (validator: Result<
        ValidatorTree,
        SchemaError,
    >)
        ensures
            *final(gen) == *old(gen),
            validator matches Ok(ValidatorTree::Leaf(leaf)) && exists|
                start: fog_pack::validator::DataLockboxValidator,
            | leaf == #[trigger] data_lockbox_built(start),
    {
        Ok(ValidatorTree::Leaf(data_lockbox_build(data_lockbox_new())))
    }
}

impl FogValidate for fog_pack::types::LockLockbox {
    fn origin(opt: bool) -> (marker: String)
        ensures
            marker@ == "fog_pack::types::LockLockbox"@,
    {
        String::from_str("fog_pack::types::LockLockbox")
    }

    fn should_reference(opt: bool) -> (shared: bool)
        ensures
            !shared,
    {
        false
    }

    fn has_opt() -> (differs: bool)
        ensures
            !differs,
    {
        false
    }

    fn validator_name(opt: bool) -> (name: Name)
        ensures
            name@ == plain_name("fog_pack::types"@, "LockLockbox"@),
    {
        proof {
            reveal_strlit("fog_pack::types");
            reveal_strlit("LockLockbox");
        }
        Name::new("fog_pack::types", "LockLockbox")
    }

    /// What fog-pack builds from its validator of all lock lockboxes.
    fn validator(gen: &mut SchemaGenerator, opt: bool) -> (validator: Result<
        ValidatorTree,
        SchemaError,
    >)
        ensures
            *final(gen) == *old(gen),
            validator matches Ok(ValidatorTree::Leaf(leaf)) && exists|
                start: fog_pack::validator::LockLockboxValidator,
            | leaf == #[trigger] lock_lockbox_built(start),
    {
        Ok(ValidatorTree::Leaf(lock_lockbox_build(lock_lockbox_new())))
    }
}

impl FogValidate for fog_pack::types::IdentityLockbox {
    fn origin(opt: bool) -> (marker: String)
        ensures
            marker@ == "fog_pack::types::IdentityLockbox"@,
    {
        String::from_str("fog_pack::types::IdentityLockbox")
    }

    fn should_reference(opt: bool) -> (shared: bool)
        ensures
            !shared,
    {
        false
    }

    fn has_opt() -> (differs: bool)
        ensures
            !differs,
    {
        false
    }

    fn validator_name(opt: bool) -> (name: Name)
        ensures
            name@ == plain_name("fog_pack::types"@, "IdentityLockbox"@),
    {
        proof {
            reveal_strlit("fog_pack::types");
            reveal_strlit("IdentityLockbox");
        }
        Name::new("fog_pack::types", "IdentityLockbox")
    }

    /// What fog-pack builds from its validator of all identity lockboxes.
    fn validator(gen: &mut SchemaGenerator, opt: bool) -> (validator: Result<
        ValidatorTree,
        SchemaError,
    >)
        ensures
            *final(gen) == *old(gen),
            validator matches Ok(ValidatorTree::Leaf(leaf)) && exists|
                start: fog_pack::validator::IdentityLockboxValidator,
            | leaf == #[trigger] identity_lockbox_built(start),
    {
        Ok(ValidatorTree::Leaf(identity_lockbox_build(identity_lockbox_new())))
    }
}

impl FogValidate for fog_pack::types::StreamLockbox {
    fn origin(opt: bool) -> (marker: String)
        ensures
            marker@ == "fog_pack::types::StreamLockbox"@,
    {
        String::from_str("fog_pack::types::StreamLockbox")
    }

    fn should_reference(opt: bool) -> (shared: bool)
        ensures
            !shared,
    {
        false
    }

    fn has_opt() -> (differs: bool)
        ensures
            !differs,
    {
        false
    }

    fn validator_name(opt: bool) -> (name: Name)
        ensures
            name@ == plain_name("fog_pack::types"@, "StreamLockbox"@),
    {
        proof {
            reveal_strlit("fog_pack::types");
            reveal_strlit("StreamLockbox");
        }
        Name::new("fog_pack::types", "StreamLockbox")
    }

    /// What fog-pack builds from its validator of all stream lockboxes.
    fn validator(gen: &mut SchemaGenerator, opt: bool) -> (validator: Result<
        ValidatorTree,
        SchemaError,
    >)
        ensures
            *final(gen) == *old(gen),
            validator matches Ok(ValidatorTree::Leaf(leaf)) && exists|
                start: fog_pack::validator::StreamLockboxValidator,
            | leaf == #[trigger] stream_lockbox_built(start),
    {
        Ok(ValidatorTree::Leaf(stream_lockbox_build(stream_lockbox_new())))
    }
}

impl FogValidate for fog_pack::types::DataLockboxRef {
    fn origin(opt: bool) -> (marker: String)
        ensures
            marker@ == "fog_pack::types::DataLockboxRef"@,
    {
        String::from_str("fog_pack::types::DataLockboxRef")
    }

    fn should_reference(opt: bool) -> (shared: bool)
        ensures
            !shared,
    {
        false
    }

    fn has_opt() -> (differs: bool)
        ensures
            !differs,
    {
        false
    }

    fn validator_name(opt: bool) -> (name: Name)
        ensures
            name@ == plain_name("fog_pack::types"@, "DataLockboxRef"@),
    {
        proof {
            reveal_strlit("fog_pack::types");
            reveal_strlit("DataLockboxRef");
        }
        Name::new("fog_pack::types", "DataLockboxRef")
    }

    /// What fog-pack builds from its validator of all data lockboxes.
    fn validator(gen: &mut SchemaGenerator, opt: bool) -> (validator: Result<
        ValidatorTree,
        SchemaError,
    >)
        ensures
            *final(gen) == *old(gen),
            validator matches Ok(ValidatorTree::Leaf(leaf)) && exists|
                start: fog_pack::validator::DataLockboxValidator,
            | leaf == #[trigger] data_lockbox_built(start),
    {
        Ok(ValidatorTree::Leaf(data_lockbox_build(data_lockbox_new())))
    }
}

impl FogValidate for fog_pack::types::LockLockboxRef {
    fn origin(opt: bool) -> (marker: String)
        ensures
            marker@ == "fog_pack::types::LockLockboxRef"@,
    {
        String::from_str("fog_pack::types::LockLockboxRef")
    }

    fn should_reference(opt: bool) -> (shared: bool)
        ensures
            !shared,
    {
        false
    }

    fn has_opt() -> (differs: bool)
        ensures
            !differs,
    {
        false
    }

    fn validator_name(opt: bool) -> (name: Name)
        ensures
            name@ == plain_name("fog_pack::types"@, "LockLockboxRef"@),
    {
        proof {
            reveal_strlit("fog_pack::types");
            reveal_strlit("LockLockboxRef");
        }
        Name::new("fog_pack::types", "LockLockboxRef")
    }

    /// What fog-pack builds from its validator of all lock lockboxes.
    fn validator(gen: &mut SchemaGenerator, opt: bool) -> (validator: Result<
        ValidatorTree,
        SchemaError,
    >)
        ensures
            *final(gen) == *old(gen),
            validator matches Ok(ValidatorTree::Leaf(leaf)) && exists|
                start: fog_pack::validator::LockLockboxValidator,
            | leaf == #[trigger] lock_lockbox_built(start),
    {
        Ok(ValidatorTree::Leaf(lock_lockbox_build(lock_lockbox_new())))
    }
}

impl FogValidate for fog_pack::types::IdentityLockboxRef {
    fn origin(opt: bool) -> (marker: String)
        ensures
            marker@ == "fog_pack::types::IdentityLockboxRef"@,
    {
        String::from_str("fog_pack::types::IdentityLockboxRef")
    }

    fn should_reference(opt: bool) -> (shared: bool)
        ensures
            !shared,
    {
        false
    }

    fn has_opt() -> (differs: bool)
        ensures
            !differs,
    {
        false
    }

    fn validator_name(opt: bool) -> (name: Name)
        ensures
            name@ == plain_name("fog_pack::types"@, "IdentityLockboxRef"@),
    {
        proof {
            reveal_strlit("fog_pack::types");
            reveal_strlit("IdentityLockboxRef");
        }
        Name::new("fog_pack::types", "IdentityLockboxRef")
    }

    /// What fog-pack builds from its validator of all identity lockboxes.
    fn validator(gen: &mut SchemaGenerator, opt: bool) -> (validator: Result<
        ValidatorTree,
        SchemaError,
    >)
        ensures
            *final(gen) == *old(gen),
            validator matches Ok(ValidatorTree::Leaf(leaf)) && exists|
                start: fog_pack::validator::IdentityLockboxValidator,
            | leaf == #[trigger] identity_lockbox_built(start),
    {
        Ok(ValidatorTree::Leaf(identity_lockbox_build(identity_lockbox_new())))
    }
}

impl FogValidate for fog_pack::types::StreamLockboxRef {
    fn origin(opt: bool) -> (marker: String)
        ensures
            marker@ == "fog_pack::types::StreamLockboxRef"@,
    {
        String::from_str("fog_pack::types::StreamLockboxRef")
    }

    fn should_reference(opt: bool) -> (shared: bool)
        ensures
            !shared,
    {
        false
    }

    fn has_opt() -> (differs: bool)
        ensures
            !differs,
    {
        false
    }

    fn validator_name(opt: bool) -> (name: Name)
        ensures
            name@ == plain_name("fog_pack::types"@, "StreamLockboxRef"@),
    {
        proof {
            reveal_strlit("fog_pack::types");
            reveal_strlit("StreamLockboxRef");
        }
        Name::new("fog_pack::types", "StreamLockboxRef")
    }

    /// What fog-pack builds from its validator of all stream lockboxes.
    fn validator(gen: &mut SchemaGenerator, opt: bool) -> (validator: Result<
        ValidatorTree,
        SchemaError,
    >)
        ensures
            *final(gen) == *old(gen),
            validator matches Ok(ValidatorTree::Leaf(leaf)) && exists|
                start: fog_pack::validator::StreamLockboxValidator,
            | leaf == #[trigger] stream_lockbox_built(start),
    {
        Ok(ValidatorTree::Leaf(stream_lockbox_build(stream_lockbox_new())))
    }
}

} // verus!
