//! Descriptors of the primitive types. None of them is shared: their
//! validators stand where they are used. Each is built by fog-pack from the
//! validator that accepts all values of the kind; what the descriptor
//! hands to fog-pack on the way is stated.

use vstd::prelude::*;
use vstd::string::StringExecFns;
use crate::error::SchemaError;
use crate::fog::{
    bool_build, bool_built, bool_new, bool_nin_add, bool_nin_added, int_build, int_built,
    int_max, int_max_set, int_min, int_min_set, int_new, int_nin_add, int_nin_added, str_build,
    str_built, str_max_char, str_max_char_set, str_min_char, str_min_char_set, str_min_len,
    str_min_len_set, str_new, str_nin_add, str_nin_added,
};
use crate::generator::{FogValidate, SchemaGenerator};
use crate::name::{plain_name, Name};
use crate::tree::ValidatorTree;

verus! {

/// The validator of the integers from `min` to `max`, without zero where
/// `nonzero` is set, as fog-pack builds it from the integer validator
/// `start`.
pub open spec fn int_leaf(
    start: fog_pack::validator::IntValidator,
    min: int,
    max: int,
    nonzero: bool,
) -> fog_pack::validator::Validator {
    int_built(
        int_max_set(
            int_min_set(
                if nonzero {
                    int_nin_added(start, 0)
                } else {
                    start
                },
                min as i64,
            ),
            max as u64,
        ),
    )
}

/// The validator of the unsigned integers up to `max`, from 1 where
/// `nonzero` is set and else from 0, as fog-pack builds it from the integer
/// validator `start`.
pub open spec fn unsigned_leaf(
    start: fog_pack::validator::IntValidator,
    max: int,
    nonzero: bool,
) -> fog_pack::validator::Validator {
    int_built(
        int_max_set(
            int_min_set(
                start,
                if nonzero {
                    1
                } else {
                    0
                },
            ),
            max as u64,
        ),
    )
}

/// The validator of the booleans, without `false` where `opt` is set, as
/// fog-pack builds it from the boolean validator `start`.
pub open spec fn bool_leaf(
    start: fog_pack::validator::BoolValidator,
    opt: bool,
) -> fog_pack::validator::Validator {
    bool_built(
        if opt {
            bool_nin_added(start, false)
        } else {
            start
        },
    )
}

/// The validator of the strings, of at least one byte where `opt` is set,
/// as fog-pack builds it from the string validator `start`.
pub open spec fn str_leaf(
    start: fog_pack::validator::StrValidator,
    opt: bool,
) -> fog_pack::validator::Validator {
    str_built(
        if opt {
            str_min_len_set(start, 1)
        } else {
            start
        },
    )
}

/// The validator of the strings of one character, without the null
/// character where `opt` is set, as fog-pack builds it from the string
/// validator `start`.
pub open spec fn char_leaf(
    start: fog_pack::validator::StrValidator,
    opt: bool,
) -> fog_pack::validator::Validator {
    str_built(
        str_max_char_set(
            str_min_char_set(
                if opt {
                    str_nin_added(start, "\0"@)
                } else {
                    start
                },
                1,
            ),
            1,
        ),
    )
}

/// The validator of the integers from `min` to `max`, without zero where
/// `nonzero` is set: what fog-pack builds from the validator of all
/// integers, as `int_leaf` says.
pub(crate) fn int_validator(min: i64, max: u64, nonzero: bool) -> (validator: ValidatorTree)
    ensures
        validator matches ValidatorTree::Leaf(leaf) && exists|
            start: fog_pack::validator::IntValidator,
        | leaf == #[trigger] int_leaf(start, min as int, max as int, nonzero),
{
    let start = int_new();
    let ghost begun = start;
    let banned = if nonzero {
        int_nin_add(start, 0)
    } else {
        start
    };
    let leaf = int_build(int_max(int_min(banned, min), max));
    assert(leaf == int_leaf(begun, min as int, max as int, nonzero));
    ValidatorTree::Leaf(leaf)
}

/// The validator of the unsigned integers up to `max`, from 1 where
/// `nonzero` is set and else from 0: what fog-pack builds from the
/// validator of all integers, as `unsigned_leaf` says.
pub(crate) fn unsigned_validator(max: u64, nonzero: bool) -> (validator: ValidatorTree)
    ensures
        validator matches ValidatorTree::Leaf(leaf) && exists|
            start: fog_pack::validator::IntValidator,
        | leaf == #[trigger] unsigned_leaf(start, max as int, nonzero),
{
    let min: i64 = if nonzero {
        1
    } else {
        0
    };
    let start = int_new();
    let ghost begun = start;
    let leaf = int_build(int_max(int_min(start, min), max));
    assert(leaf == unsigned_leaf(begun, max as int, nonzero));
    ValidatorTree::Leaf(leaf)
}

impl FogValidate for bool {
    fn origin(opt: bool) -> (marker: String)
        ensures
            marker@ == "bool"@,
    {
        String::from_str("bool")
    }

    fn should_reference(opt: bool) -> (shared: bool)
        ensures
            !shared,
    {
        false
    }

    fn has_opt() -> (differs: bool)
        ensures
            differs,
    {
        true
    }

    fn validator_name(opt: bool) -> (name: Name)
        ensures
            name@ == plain_name(
                ""@,
                if opt {
                    "true"@
                } else {
                    "bool"@
                },
            ),
    {
        proof {
            reveal_strlit("");
            reveal_strlit("true");
            reveal_strlit("bool");
        }
        Name::new(
            "",
            if opt {
                "true"
            } else {
                "bool"
            },
        )
    }

    /// All booleans; only `true` where `opt` is set: what fog-pack builds
    /// from the validator of all booleans, as `bool_leaf` says.
    fn validator(gen: &mut SchemaGenerator, opt: bool) -> (validator: Result<
        ValidatorTree,
        SchemaError,
    >)
        ensures
            *final(gen) == *old(gen),
            validator matches Ok(ValidatorTree::Leaf(leaf)) && exists|
                start: fog_pack::validator::BoolValidator,
            | leaf == #[trigger] bool_leaf(start, opt),
    {
        let start = bool_new();
        let ghost begun = start;
        let banned = if opt {
            bool_nin_add(start, false)
        } else {
            start
        };
        let leaf = bool_build(banned);
        assert(leaf == bool_leaf(begun, opt));
        Ok(ValidatorTree::Leaf(leaf))
    }
}

impl FogValidate for str {
    fn origin(opt: bool) -> (marker: String)
        ensures
            marker@ == "str"@,
    {
        String::from_str("str")
    }

    fn should_reference(opt: bool) -> (shared: bool)
        ensures
            !shared,
    {
        false
    }

    fn has_opt() -> (differs: bool)
        ensures
            differs,
    {
        true
    }

    fn validator_name(opt: bool) -> (name: Name)
        ensures
            name@ == plain_name(
                ""@,
                if opt {
                    "OptStr"@
                } else {
                    "str"@
                },
            ),
    {
        proof {
            reveal_strlit("");
            reveal_strlit("OptStr");
            reveal_strlit("str");
        }
        Name::new(
            "",
            if opt {
                "OptStr"
            } else {
                "str"
            },
        )
    }

    /// All strings; all but the empty one where `opt` is set: what fog-pack
    /// builds from the validator of all strings, as `str_leaf` says.
    fn validator(gen: &mut SchemaGenerator, opt: bool) -> (validator: Result<
        ValidatorTree,
        SchemaError,
    >)
        ensures
            *final(gen) == *old(gen),
            validator matches Ok(ValidatorTree::Leaf(leaf)) && exists|
                start: fog_pack::validator::StrValidator,
            | leaf == #[trigger] str_leaf(start, opt),
    {
        let start = str_new();
        let ghost begun = start;
        let bounded = if opt {
            str_min_len(start, 1)
        } else {
            start
        };
        let leaf = str_build(bounded);
        assert(leaf == str_leaf(begun, opt));
        Ok(ValidatorTree::Leaf(leaf))
    }
}

impl FogValidate for String {
    fn origin(opt: bool) -> (marker: String)
        ensures
            call_ensures(<str as FogValidate>::origin, (opt,), marker),
    {
        <str as FogValidate>::origin(opt)
    }

    fn should_reference(opt: bool) -> (shared: bool)
        ensures
            call_ensures(<str as FogValidate>::should_reference, (opt,), shared),
    {
        <str as FogValidate>::should_reference(opt)
    }

    fn has_opt() -> (differs: bool)
        ensures
            call_ensures(<str as FogValidate>::has_opt, (), differs),
    {
        <str as FogValidate>::has_opt()
    }

    fn validator_name(opt: bool) -> (name: Name)
        ensures
            call_ensures(<str as FogValidate>::validator_name, (opt,), name),
    {
        <str as FogValidate>::validator_name(opt)
    }

    /// The validator that the other descriptor computes, with what that
    /// does to the generator.
    fn validator(gen: &mut SchemaGenerator, opt: bool) -> (validator: Result<
        ValidatorTree,
        SchemaError,
    >)
        ensures
            exists|inner: &mut SchemaGenerator|
                *inner == *old(gen) && *final(inner) == *final(gen) && #[trigger] call_ensures(
                    <str as FogValidate>::validator,
                    (inner, opt),
                    validator,
                ),
    {
        <str as FogValidate>::validator(gen, opt)
    }
}

impl FogValidate for char {
    fn origin(opt: bool) -> (marker: String)
        ensures
            marker@ == "char"@,
    {
        String::from_str("char")
    }

    fn should_reference(opt: bool) -> (shared: bool)
        ensures
            !shared,
    {
        false
    }

    fn has_opt() -> (differs: bool)
        ensures
            differs,
    {
        true
    }

    fn validator_name(opt: bool) -> (name: Name)
        ensures
            name@ == plain_name(
                ""@,
                if opt {
                    "OptChar"@
                } else {
                    "char"@
                },
            ),
    {
        proof {
            reveal_strlit("");
            reveal_strlit("OptChar");
            reveal_strlit("char");
        }
        Name::new(
            "",
            if opt {
                "OptChar"
            } else {
                "char"
            },
        )
    }

    /// The strings of one character; without the null character where
    /// `opt` is set: what fog-pack builds from the validator of all strings,
    /// as `char_leaf` says.
    fn validator(gen: &mut SchemaGenerator, opt: bool) -> (validator: Result<
        ValidatorTree,
        SchemaError,
    >)
        ensures
            *final(gen) == *old(gen),
            validator matches Ok(ValidatorTree::Leaf(leaf)) && exists|
                start: fog_pack::validator::StrValidator,
            | leaf == #[trigger] char_leaf(start, opt),
    {
        let start = str_new();
        let ghost begun = start;
        let banned = if opt {
            str_nin_add(start, "\0")
        } else {
            start
        };
        let leaf = str_build(str_max_char(str_min_char(banned, 1), 1));
        assert(leaf == char_leaf(begun, opt));
        Ok(ValidatorTree::Leaf(leaf))
    }
}

impl FogValidate for u8 {
    fn origin(opt: bool) -> (marker: String)
        ensures
            marker@ == "u8"@,
    {
        String::from_str("u8")
    }

    fn should_reference(opt: bool) -> (shared: bool)
        ensures
            !shared,
    {
        false
    }

    fn has_opt() -> (differs: bool)
        ensures
            differs,
    {
        true
    }

    fn validator_name(opt: bool) -> (name: Name)
        ensures
            name@ == plain_name(
                ""@,
                if opt {
                    "NonZeroU8"@
                } else {
                    "u8"@
                },
            ),
    {
        proof {
            reveal_strlit("");
            reveal_strlit("NonZeroU8");
            reveal_strlit("u8");
        }
        Name::new(
            "",
            if opt {
                "NonZeroU8"
            } else {
                "u8"
            },
        )
    }

    /// The integers of this width; without zero where `opt` is set: what
    /// fog-pack builds from the validator of all integers, as
    /// `unsigned_leaf` says.
    fn validator(gen: &mut SchemaGenerator, opt: bool) -> (validator: Result<
        ValidatorTree,
        SchemaError,
    >)
        ensures
            *final(gen) == *old(gen),
            validator matches Ok(ValidatorTree::Leaf(leaf)) && exists|
                start: fog_pack::validator::IntValidator,
            | leaf == #[trigger] unsigned_leaf(start, 0xff, opt),
    {
        Ok(unsigned_validator(0xff, opt))
    }
}

impl FogValidate for u16 {
    fn origin(opt: bool) -> (marker: String)
        ensures
            marker@ == "u16"@,
    {
        String::from_str("u16")
    }

    fn should_reference(opt: bool) -> (shared: bool)
        ensures
            !shared,
    {
        false
    }

    fn has_opt() -> (differs: bool)
        ensures
            differs,
    {
        true
    }

    fn validator_name(opt: bool) -> (name: Name)
        ensures
            name@ == plain_name(
                ""@,
                if opt {
                    "NonZeroU16"@
                } else {
                    "u16"@
                },
            ),
    {
        proof {
            reveal_strlit("");
            reveal_strlit("NonZeroU16");
            reveal_strlit("u16");
        }
        Name::new(
            "",
            if opt {
                "NonZeroU16"
            } else {
                "u16"
            },
        )
    }

    /// The integers of this width; without zero where `opt` is set: what
    /// fog-pack builds from the validator of all integers, as
    /// `unsigned_leaf` says.
    fn validator(gen: &mut SchemaGenerator, opt: bool) -> (validator: Result<
        ValidatorTree,
        SchemaError,
    >)
        ensures
            *final(gen) == *old(gen),
            validator matches Ok(ValidatorTree::Leaf(leaf)) && exists|
                start: fog_pack::validator::IntValidator,
            | leaf == #[trigger] unsigned_leaf(start, 0xffff, opt),
    {
        Ok(unsigned_validator(0xffff, opt))
    }
}

impl FogValidate for u32 {
    fn origin(opt: bool) -> (marker: String)
        ensures
            marker@ == "u32"@,
    {
        String::from_str("u32")
    }

    fn should_reference(opt: bool) -> (shared: bool)
        ensures
            !shared,
    {
        false
    }

    fn has_opt() -> (differs: bool)
        ensures
            differs,
    {
        true
    }

    fn validator_name(opt: bool) -> (name: Name)
        ensures
            name@ == plain_name(
                ""@,
                if opt {
                    "NonZeroU32"@
                } else {
                    "u32"@
                },
            ),
    {
        proof {
            reveal_strlit("");
            reveal_strlit("NonZeroU32");
            reveal_strlit("u32");
        }
        Name::new(
            "",
            if opt {
                "NonZeroU32"
            } else {
                "u32"
            },
        )
    }

    /// The integers of this width; without zero where `opt` is set: what
    /// fog-pack builds from the validator of all integers, as
    /// `unsigned_leaf` says.
    fn validator(gen: &mut SchemaGenerator, opt: bool) -> (validator: Result<
        ValidatorTree,
        SchemaError,
    >)
        ensures
            *final(gen) == *old(gen),
            validator matches Ok(ValidatorTree::Leaf(leaf)) && exists|
                start: fog_pack::validator::IntValidator,
            | leaf == #[trigger] unsigned_leaf(start, 0xffff_ffff, opt),
    {
        Ok(unsigned_validator(0xffff_ffff, opt))
    }
}

impl FogValidate for u64 {
    fn origin(opt: bool) -> (marker: String)
        ensures
            marker@ == "u64"@,
    {
        String::from_str("u64")
    }

    fn should_reference(opt: bool) -> (shared: bool)
        ensures
            !shared,
    {
        false
    }

    fn has_opt() -> (differs: bool)
        ensures
            differs,
    {
        true
    }

    fn validator_name(opt: bool) -> (name: Name)
        ensures
            name@ == plain_name(
                ""@,
                if opt {
                    "NonZeroU64"@
                } else {
                    "u64"@
                },
            ),
    {
        proof {
            reveal_strlit("");
            reveal_strlit("NonZeroU64");
            reveal_strlit("u64");
        }
        Name::new(
            "",
            if opt {
                "NonZeroU64"
            } else {
                "u64"
            },
        )
    }

    /// The integers of this width; without zero where `opt` is set: what
    /// fog-pack builds from the validator of all integers, as
    /// `unsigned_leaf` says.
    fn validator(gen: &mut SchemaGenerator, opt: bool) -> (validator: Result<
        ValidatorTree,
        SchemaError,
    >)
        ensures
            *final(gen) == *old(gen),
            validator matches Ok(ValidatorTree::Leaf(leaf)) && exists|
                start: fog_pack::validator::IntValidator,
            | leaf == #[trigger] unsigned_leaf(start, u64::MAX as int, opt),
    {
        Ok(unsigned_validator(u64::MAX, opt))
    }
}

impl FogValidate for i8 {
    fn origin(opt: bool) -> (marker: String)
        ensures
            marker@ == "i8"@,
    {
        String::from_str("i8")
    }

    fn should_reference(opt: bool) -> (shared: bool)
        ensures
            !shared,
    {
        false
    }

    fn has_opt() -> (differs: bool)
        ensures
            differs,
    {
        true
    }

    fn validator_name(opt: bool) -> (name: Name)
        ensures
            name@ == plain_name(
                ""@,
                if opt {
                    "NonZeroI8"@
                } else {
                    "i8"@
                },
            ),
    {
        proof {
            reveal_strlit("");
            reveal_strlit("NonZeroI8");
            reveal_strlit("i8");
        }
        Name::new(
            "",
            if opt {
                "NonZeroI8"
            } else {
                "i8"
            },
        )
    }

    /// The integers of this width; without zero where `opt` is set: what
    /// fog-pack builds from the validator of all integers, as `int_leaf`
    /// says.
    fn validator(gen: &mut SchemaGenerator, opt: bool) -> (validator: Result<
        ValidatorTree,
        SchemaError,
    >)
        ensures
            *final(gen) == *old(gen),
            validator matches Ok(ValidatorTree::Leaf(leaf)) && exists|
                start: fog_pack::validator::IntValidator,
            | leaf == #[trigger] int_leaf(start, -0x80, 0x7f, opt),
    {
        Ok(int_validator(-0x80, 0x7f, opt))
    }
}

impl FogValidate for i16 {
    fn origin(opt: bool) -> (marker: String)
        ensures
            marker@ == "i16"@,
    {
        String::from_str("i16")
    }

    fn should_reference(opt: bool) -> (shared: bool)
        ensures
            !shared,
    {
        false
    }

    fn has_opt() -> (differs: bool)
        ensures
            differs,
    {
        true
    }

    fn validator_name(opt: bool) -> (name: Name)
        ensures
            name@ == plain_name(
                ""@,
                if opt {
                    "NonZeroI16"@
                } else {
                    "i16"@
                },
            ),
    {
        proof {
            reveal_strlit("");
            reveal_strlit("NonZeroI16");
            reveal_strlit("i16");
        }
        Name::new(
            "",
            if opt {
                "NonZeroI16"
            } else {
                "i16"
            },
        )
    }

    /// The integers of this width; without zero where `opt` is set: what
    /// fog-pack builds from the validator of all integers, as `int_leaf`
    /// says.
    fn validator(gen: &mut SchemaGenerator, opt: bool) -> (validator: Result<
        ValidatorTree,
        SchemaError,
    >)
        ensures
            *final(gen) == *old(gen),
            validator matches Ok(ValidatorTree::Leaf(leaf)) && exists|
                start: fog_pack::validator::IntValidator,
            | leaf == #[trigger] int_leaf(start, -0x8000, 0x7fff, opt),
    {
        Ok(int_validator(-0x8000, 0x7fff, opt))
    }
}

impl FogValidate for i32 {
    fn origin(opt: bool) -> (marker: String)
        ensures
            marker@ == "i32"@,
    {
        String::from_str("i32")
    }

    fn should_reference(opt: bool) -> (shared: bool)
        ensures
            !shared,
    {
        false
    }

    fn has_opt() -> (differs: bool)
        ensures
            differs,
    {
        true
    }

    fn validator_name(opt: bool) -> (name: Name)
        ensures
            name@ == plain_name(
                ""@,
                if opt {
                    "NonZeroI32"@
                } else {
                    "i32"@
                },
            ),
    {
        proof {
            reveal_strlit("");
            reveal_strlit("NonZeroI32");
            reveal_strlit("i32");
        }
        Name::new(
            "",
            if opt {
                "NonZeroI32"
            } else {
                "i32"
            },
        )
    }

    /// The integers of this width; without zero where `opt` is set: what
    /// fog-pack builds from the validator of all integers, as `int_leaf`
    /// says.
    fn validator(gen: &mut SchemaGenerator, opt: bool) -> (validator: Result<
        ValidatorTree,
        SchemaError,
    >)
        ensures
            *final(gen) == *old(gen),
            validator matches Ok(ValidatorTree::Leaf(leaf)) && exists|
                start: fog_pack::validator::IntValidator,
            | leaf == #[trigger] int_leaf(start, -0x8000_0000, 0x7fff_ffff, opt),
    {
        Ok(int_validator(-0x8000_0000, 0x7fff_ffff, opt))
    }
}

impl FogValidate for i64 {
    fn origin(opt: bool) -> (marker: String)
        ensures
            marker@ == "i64"@,
    {
        String::from_str("i64")
    }

    fn should_reference(opt: bool) -> (shared: bool)
        ensures
            !shared,
    {
        false
    }

    fn has_opt() -> (differs: bool)
        ensures
            differs,
    {
        true
    }

    fn validator_name(opt: bool) -> (name: Name)
        ensures
            name@ == plain_name(
                ""@,
                if opt {
                    "NonZeroI64"@
                } else {
                    "i64"@
                },
            ),
    {
        proof {
            reveal_strlit("");
            reveal_strlit("NonZeroI64");
            reveal_strlit("i64");
        }
        Name::new(
            "",
            if opt {
                "NonZeroI64"
            } else {
                "i64"
            },
        )
    }

    /// The integers of this width; without zero where `opt` is set: what
    /// fog-pack builds from the validator of all integers, as `int_leaf`
    /// says.
    fn validator(gen: &mut SchemaGenerator, opt: bool) -> (validator: Result<
        ValidatorTree,
        SchemaError,
    >)
        ensures
            *final(gen) == *old(gen),
            validator matches Ok(ValidatorTree::Leaf(leaf)) && exists|
                start: fog_pack::validator::IntValidator,
            | leaf == #[trigger] int_leaf(start, i64::MIN as int, 0x7fff_ffff_ffff_ffff, opt),
    {
        Ok(int_validator(i64::MIN, 0x7fff_ffff_ffff_ffff, opt))
    }
}

impl FogValidate for std::sync::atomic::AtomicBool {
    fn origin(opt: bool) -> (marker: String)
        ensures
            call_ensures(<bool as FogValidate>::origin, (opt,), marker),
    {
        <bool as FogValidate>::origin(opt)
    }

    fn should_reference(opt: bool) -> (shared: bool)
        ensures
            call_ensures(<bool as FogValidate>::should_reference, (opt,), shared),
    {
        <bool as FogValidate>::should_reference(opt)
    }

    fn has_opt() -> (differs: bool)
        ensures
            call_ensures(<bool as FogValidate>::has_opt, (), differs),
    {
        <bool as FogValidate>::has_opt()
    }

    fn validator_name(opt: bool) -> (name: Name)
        ensures
            call_ensures(<bool as FogValidate>::validator_name, (opt,), name),
    {
        <bool as FogValidate>::validator_name(opt)
    }

    /// The validator that the other descriptor computes, with what that
    /// does to the generator.
    fn validator(gen: &mut SchemaGenerator, opt: bool) -> (validator: Result<
        ValidatorTree,
        SchemaError,
    >)
        ensures
            exists|inner: &mut SchemaGenerator|
                *inner == *old(gen) && *final(inner) == *final(gen) && #[trigger] call_ensures(
                    <bool as FogValidate>::validator,
                    (inner, opt),
                    validator,
                ),
    {
        <bool as FogValidate>::validator(gen, opt)
    }
}

impl FogValidate for std::sync::atomic::AtomicI8 {
    fn origin(opt: bool) -> (marker: String)
        ensures
            call_ensures(<i8 as FogValidate>::origin, (opt,), marker),
    {
        <i8 as FogValidate>::origin(opt)
    }

    fn should_reference(opt: bool) -> (shared: bool)
        ensures
            call_ensures(<i8 as FogValidate>::should_reference, (opt,), shared),
    {
        <i8 as FogValidate>::should_reference(opt)
    }

    fn has_opt() -> (differs: bool)
        ensures
            call_ensures(<i8 as FogValidate>::has_opt, (), differs),
    {
        <i8 as FogValidate>::has_opt()
    }

    fn validator_name(opt: bool) -> (name: Name)
        ensures
            call_ensures(<i8 as FogValidate>::validator_name, (opt,), name),
    {
        <i8 as FogValidate>::validator_name(opt)
    }

    /// The validator that the other descriptor computes, with what that
    /// does to the generator.
    fn validator(gen: &mut SchemaGenerator, opt: bool) -> (validator: Result<
        ValidatorTree,
        SchemaError,
    >)
        ensures
            exists|inner: &mut SchemaGenerator|
                *inner == *old(gen) && *final(inner) == *final(gen) && #[trigger] call_ensures(
                    <i8 as FogValidate>::validator,
                    (inner, opt),
                    validator,
                ),
    {
        <i8 as FogValidate>::validator(gen, opt)
    }
}

impl FogValidate for std::sync::atomic::AtomicI16 {
    fn origin(opt: bool) -> (marker: String)
        ensures
            call_ensures(<i16 as FogValidate>::origin, (opt,), marker),
    {
        <i16 as FogValidate>::origin(opt)
    }

    fn should_reference(opt: bool) -> (shared: bool)
        ensures
            call_ensures(<i16 as FogValidate>::should_reference, (opt,), shared),
    {
        <i16 as FogValidate>::should_reference(opt)
    }

    fn has_opt() -> (differs: bool)
        ensures
            call_ensures(<i16 as FogValidate>::has_opt, (), differs),
    {
        <i16 as FogValidate>::has_opt()
    }

    fn validator_name(opt: bool) -> (name: Name)
        ensures
            call_ensures(<i16 as FogValidate>::validator_name, (opt,), name),
    {
        <i16 as FogValidate>::validator_name(opt)
    }

    /// The validator that the other descriptor computes, with what that
    /// does to the generator.
    fn validator(gen: &mut SchemaGenerator, opt: bool) -> (validator: Result<
        ValidatorTree,
        SchemaError,
    >)
        ensures
            exists|inner: &mut SchemaGenerator|
                *inner == *old(gen) && *final(inner) == *final(gen) && #[trigger] call_ensures(
                    <i16 as FogValidate>::validator,
                    (inner, opt),
                    validator,
                ),
    {
        <i16 as FogValidate>::validator(gen, opt)
    }
}

impl FogValidate for std::sync::atomic::AtomicI32 {
    fn origin(opt: bool) -> (marker: String)
        ensures
            call_ensures(<i32 as FogValidate>::origin, (opt,), marker),
    {
        <i32 as FogValidate>::origin(opt)
    }

    fn should_reference(opt: bool) -> (shared: bool)
        ensures
            call_ensures(<i32 as FogValidate>::should_reference, (opt,), shared),
    {
        <i32 as FogValidate>::should_reference(opt)
    }

    fn has_opt() -> (differs: bool)
        ensures
            call_ensures(<i32 as FogValidate>::has_opt, (), differs),
    {
        <i32 as FogValidate>::has_opt()
    }

    fn validator_name(opt: bool) -> (name: Name)
        ensures
            call_ensures(<i32 as FogValidate>::validator_name, (opt,), name),
    {
        <i32 as FogValidate>::validator_name(opt)
    }

    /// The validator that the other descriptor computes, with what that
    /// does to the generator.
    fn validator(gen: &mut SchemaGenerator, opt: bool) -> (validator: Result<
        ValidatorTree,
        SchemaError,
    >)
        ensures
            exists|inner: &mut SchemaGenerator|
                *inner == *old(gen) && *final(inner) == *final(gen) && #[trigger] call_ensures(
                    <i32 as FogValidate>::validator,
                    (inner, opt),
                    validator,
                ),
    {
        <i32 as FogValidate>::validator(gen, opt)
    }
}

impl FogValidate for std::sync::atomic::AtomicI64 {
    fn origin(opt: bool) -> (marker: String)
        ensures
            call_ensures(<i64 as FogValidate>::origin, (opt,), marker),
    {
        <i64 as FogValidate>::origin(opt)
    }

    fn should_reference(opt: bool) -> (shared: bool)
        ensures
            call_ensures(<i64 as FogValidate>::should_reference, (opt,), shared),
    {
        <i64 as FogValidate>::should_reference(opt)
    }

    fn has_opt() -> (differs: bool)
        ensures
            call_ensures(<i64 as FogValidate>::has_opt, (), differs),
    {
        <i64 as FogValidate>::has_opt()
    }

    fn validator_name(opt: bool) -> (name: Name)
        ensures
            call_ensures(<i64 as FogValidate>::validator_name, (opt,), name),
    {
        <i64 as FogValidate>::validator_name(opt)
    }

    /// The validator that the other descriptor computes, with what that
    /// does to the generator.
    fn validator(gen: &mut SchemaGenerator, opt: bool) -> (validator: Result<
        ValidatorTree,
        SchemaError,
    >)
        ensures
            exists|inner: &mut SchemaGenerator|
                *inner == *old(gen) && *final(inner) == *final(gen) && #[trigger] call_ensures(
                    <i64 as FogValidate>::validator,
                    (inner, opt),
                    validator,
                ),
    {
        <i64 as FogValidate>::validator(gen, opt)
    }
}

impl FogValidate for std::sync::atomic::AtomicU8 {
    fn origin(opt: bool) -> (marker: String)
        ensures
            call_ensures(<u8 as FogValidate>::origin, (opt,), marker),
    {
        <u8 as FogValidate>::origin(opt)
    }

    fn should_reference(opt: bool) -> (shared: bool)
        ensures
            call_ensures(<u8 as FogValidate>::should_reference, (opt,), shared),
    {
        <u8 as FogValidate>::should_reference(opt)
    }

    fn has_opt() -> (differs: bool)
        ensures
            call_ensures(<u8 as FogValidate>::has_opt, (), differs),
    {
        <u8 as FogValidate>::has_opt()
    }

    fn validator_name(opt: bool) -> (name: Name)
        ensures
            call_ensures(<u8 as FogValidate>::validator_name, (opt,), name),
    {
        <u8 as FogValidate>::validator_name(opt)
    }

    /// The validator that the other descriptor computes, with what that
    /// does to the generator.
    fn validator(gen: &mut SchemaGenerator, opt: bool) -> (validator: Result<
        ValidatorTree,
        SchemaError,
    >)
        ensures
            exists|inner: &mut SchemaGenerator|
                *inner == *old(gen) && *final(inner) == *final(gen) && #[trigger] call_ensures(
                    <u8 as FogValidate>::validator,
                    (inner, opt),
                    validator,
                ),
    {
        <u8 as FogValidate>::validator(gen, opt)
    }
}

impl FogValidate for std::sync::atomic::AtomicU16 {
    fn origin(opt: bool) -> (marker: String)
        ensures
            call_ensures(<u16 as FogValidate>::origin, (opt,), marker),
    {
        <u16 as FogValidate>::origin(opt)
    }

    fn should_reference(opt: bool) -> (shared: bool)
        ensures
            call_ensures(<u16 as FogValidate>::should_reference, (opt,), shared),
    {
        <u16 as FogValidate>::should_reference(opt)
    }

    fn has_opt() -> (differs: bool)
        ensures
            call_ensures(<u16 as FogValidate>::has_opt, (), differs),
    {
        <u16 as FogValidate>::has_opt()
    }

    fn validator_name(opt: bool) -> (name: Name)
        ensures
            call_ensures(<u16 as FogValidate>::validator_name, (opt,), name),
    {
        <u16 as FogValidate>::validator_name(opt)
    }

    /// The validator that the other descriptor computes, with what that
    /// does to the generator.
    fn validator(gen: &mut SchemaGenerator, opt: bool) -> (validator: Result<
        ValidatorTree,
        SchemaError,
    >)
        ensures
            exists|inner: &mut SchemaGenerator|
                *inner == *old(gen) && *final(inner) == *final(gen) && #[trigger] call_ensures(
                    <u16 as FogValidate>::validator,
                    (inner, opt),
                    validator,
                ),
    {
        <u16 as FogValidate>::validator(gen, opt)
    }
}

impl FogValidate for std::sync::atomic::AtomicU32 {
    fn origin(opt: bool) -> (marker: String)
        ensures
            call_ensures(<u32 as FogValidate>::origin, (opt,), marker),
    {
        <u32 as FogValidate>::origin(opt)
    }

    fn should_reference(opt: bool) -> (shared: bool)
        ensures
            call_ensures(<u32 as FogValidate>::should_reference, (opt,), shared),
    {
        <u32 as FogValidate>::should_reference(opt)
    }

    fn has_opt() -> (differs: bool)
        ensures
            call_ensures(<u32 as FogValidate>::has_opt, (), differs),
    {
        <u32 as FogValidate>::has_opt()
    }

    fn validator_name(opt: bool) -> (name: Name)
        ensures
            call_ensures(<u32 as FogValidate>::validator_name, (opt,), name),
    {
        <u32 as FogValidate>::validator_name(opt)
    }

    /// The validator that the other descriptor computes, with what that
    /// does to the generator.
    fn validator(gen: &mut SchemaGenerator, opt: bool) -> (validator: Result<
        ValidatorTree,
        SchemaError,
    >)
        ensures
            exists|inner: &mut SchemaGenerator|
                *inner == *old(gen) && *final(inner) == *final(gen) && #[trigger] call_ensures(
                    <u32 as FogValidate>::validator,
                    (inner, opt),
                    validator,
                ),
    {
        <u32 as FogValidate>::validator(gen, opt)
    }
}

impl FogValidate for std::sync::atomic::AtomicU64 {
    fn origin(opt: bool) -> (marker: String)
        ensures
            call_ensures(<u64 as FogValidate>::origin, (opt,), marker),
    {
        <u64 as FogValidate>::origin(opt)
    }

    fn should_reference(opt: bool) -> (shared: bool)
        ensures
            call_ensures(<u64 as FogValidate>::should_reference, (opt,), shared),
    {
        <u64 as FogValidate>::should_reference(opt)
    }

    fn has_opt() -> (differs: bool)
        ensures
            call_ensures(<u64 as FogValidate>::has_opt, (), differs),
    {
        <u64 as FogValidate>::has_opt()
    }

    fn validator_name(opt: bool) -> (name: Name)
        ensures
            call_ensures(<u64 as FogValidate>::validator_name, (opt,), name),
    {
        <u64 as FogValidate>::validator_name(opt)
    }

    /// The validator that the other descriptor computes, with what that
    /// does to the generator.
    fn validator(gen: &mut SchemaGenerator, opt: bool) -> (validator: Result<
        ValidatorTree,
        SchemaError,
    >)
        ensures
            exists|inner: &mut SchemaGenerator|
                *inner == *old(gen) && *final(inner) == *final(gen) && #[trigger] call_ensures(
                    <u64 as FogValidate>::validator,
                    (inner, opt),
                    validator,
                ),
    {
        <u64 as FogValidate>::validator(gen, opt)
    }
}

} // verus!
