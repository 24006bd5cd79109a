//! Descriptors of sequences and sets. They are not shared: the validator of
//! the items is.

use vstd::prelude::*;
use vstd::string::StringExecFns;
use crate::error::SchemaError;
use crate::fog::{array_min_len, array_min_len_set, array_new, array_unique, array_unique_set};
use crate::generator::{generator_wf, resolved, FogValidate, SchemaGenerator};
use crate::name::{name_with, Name};
use crate::schema_impls::basics::name_of_one;
use crate::tree::ValidatorTree;

verus! {

/// The rules of a sequence, as fog-pack makes them of the rules `start`:
/// at least one item where `opt` is set.
pub open spec fn sequence_rules(
    start: fog_pack::validator::ArrayValidator,
    opt: bool,
) -> fog_pack::validator::ArrayValidator {
    if opt {
        array_min_len_set(start, 1)
    } else {
        start
    }
}

/// The rules of a set, as fog-pack makes them of the rules `start`: all
/// items differ, and there is at least one where `opt` is set.
pub open spec fn set_rules(
    start: fog_pack::validator::ArrayValidator,
    opt: bool,
) -> fog_pack::validator::ArrayValidator {
    sequence_rules(array_unique_set(start, true), opt)
}

/// The validator of the arrays whose items pass `items`; of those that are
/// not empty where `opt` is set. Its rules are what fog-pack makes of the
/// rules that allow every array, as `sequence_rules` says.
pub fn sequence_validator(items: ValidatorTree, opt: bool) -> (validator: ValidatorTree)
    ensures
        validator matches ValidatorTree::Array { contains, items: held, prefix, rules }
            && contains@.len() == 0 && prefix@.len() == 0 && *held == items && exists|
            start: fog_pack::validator::ArrayValidator,
        | rules == #[trigger] sequence_rules(start, opt),
{
    let start = array_new();
    let ghost begun = start;
    let rules = if opt {
        array_min_len(start, 1)
    } else {
        start
    };
    assert(rules == sequence_rules(begun, opt));
    ValidatorTree::Array { contains: Vec::new(), items: Box::new(items), prefix: Vec::new(), rules }
}

/// The validator of the arrays of different items that pass `items`; of
/// those that are not empty where `opt` is set. Its rules are what fog-pack
/// makes of the rules that allow every array, as `set_rules` says.
pub fn set_validator(items: ValidatorTree, opt: bool) -> (validator: ValidatorTree)
    ensures
        validator matches ValidatorTree::Array { contains, items: held, prefix, rules }
            && contains@.len() == 0 && prefix@.len() == 0 && *held == items && exists|
            start: fog_pack::validator::ArrayValidator,
        | rules == #[trigger] set_rules(start, opt),
{
    let start = array_new();
    let ghost begun = start;
    let different = array_unique(start, true);
    let rules = if opt {
        array_min_len(different, 1)
    } else {
        different
    };
    assert(rules == set_rules(begun, opt));
    ValidatorTree::Array { contains: Vec::new(), items: Box::new(items), prefix: Vec::new(), rules }
}

impl<T: FogValidate> FogValidate for Vec<T> {
    fn origin(opt: bool) -> (marker: String)
        ensures
            marker@ == "Vec"@,
    {
        String::from_str("Vec")
    }

    fn should_reference(opt: bool) -> (shared: bool)
        ensures
            !shared,
    {
        false
    }

    fn has_opt() -> (differs: bool)
        ensures
            differs,
    {
        true
    }

    fn validator_name(opt: bool) -> (name: Name)
        ensures
            exists|param: Name| #[trigger]
                call_ensures(T::validator_name, (false,), param) && name@ == name_with(
                    ""@,
                    if opt {
                        "NonEmptyVec"@
                    } else {
                        "Vec"@
                    },
                    seq![param@],
                ),
    {
        proof {
            reveal_strlit("");
            reveal_strlit("NonEmptyVec");
            reveal_strlit("Vec");
        }
        name_of_one(
            "",
            if opt {
                "NonEmptyVec"
            } else {
                "Vec"
            },
            T::validator_name(false),
        )
    }

    /// The array of what `T` resolves to, not empty where `opt` is set: the
    /// generator changes as resolving `T` changes it, and an error of that
    /// is handed on.
    fn validator(gen: &mut SchemaGenerator, opt: bool) -> (validator: Result<
        ValidatorTree,
        SchemaError,
    >)
        ensures
            generator_wf(final(gen)@),
            match validator {
                Ok(ValidatorTree::Array { contains, items, prefix, rules }) => {
                    &&& contains@.len() == 0
                    &&& prefix@.len() == 0
                    &&& exists|start: fog_pack::validator::ArrayValidator|
                        rules == #[trigger] sequence_rules(start, opt)
                    &&& resolved::<T>(old(gen)@, final(gen)@, false, Ok(*items))
                },
                Ok(_) => false,
                Err(_) => resolved::<T>(old(gen)@, final(gen)@, false, validator),
            },
    {
        match gen.type_add::<T>() {
            Ok(inner) => Ok(sequence_validator(inner, opt)),
            Err(e) => Err(e),
        }
    }
}

impl<T: FogValidate> FogValidate for [T] {
    fn origin(opt: bool) -> (marker: String)
        ensures
            marker@ == "Vec"@,
    {
        String::from_str("Vec")
    }

    fn should_reference(opt: bool) -> (shared: bool)
        ensures
            !shared,
    {
        false
    }

    fn has_opt() -> (differs: bool)
        ensures
            differs,
    {
        true
    }

    fn validator_name(opt: bool) -> (name: Name)
        ensures
            exists|param: Name| #[trigger]
                call_ensures(T::validator_name, (false,), param) && name@ == name_with(
                    ""@,
                    if opt {
                        "NonEmptyVec"@
                    } else {
                        "Vec"@
                    },
                    seq![param@],
                ),
    {
        proof {
            reveal_strlit("");
            reveal_strlit("NonEmptyVec");
            reveal_strlit("Vec");
        }
        name_of_one(
            "",
            if opt {
                "NonEmptyVec"
            } else {
                "Vec"
            },
            T::validator_name(false),
        )
    }

    /// The array of what `T` resolves to, not empty where `opt` is set: the
    /// generator changes as resolving `T` changes it, and an error of that
    /// is handed on.
    fn validator(gen: &mut SchemaGenerator, opt: bool) -> (validator: Result<
        ValidatorTree,
        SchemaError,
    >)
        ensures
            generator_wf(final(gen)@),
            match validator {
                Ok(ValidatorTree::Array { contains, items, prefix, rules }) => {
                    &&& contains@.len() == 0
                    &&& prefix@.len() == 0
                    &&& exists|start: fog_pack::validator::ArrayValidator|
                        rules == #[trigger] sequence_rules(start, opt)
                    &&& resolved::<T>(old(gen)@, final(gen)@, false, Ok(*items))
                },
                Ok(_) => false,
                Err(_) => resolved::<T>(old(gen)@, final(gen)@, false, validator),
            },
    {
        match gen.type_add::<T>() {
            Ok(inner) => Ok(sequence_validator(inner, opt)),
            Err(e) => Err(e),
        }
    }
}

impl<T: FogValidate> FogValidate for std::collections::VecDeque<T> {
    fn origin(opt: bool) -> (marker: String)
        ensures
            marker@ == "Vec"@,
    {
        String::from_str("Vec")
    }

    fn should_reference(opt: bool) -> (shared: bool)
        ensures
            !shared,
    {
        false
    }

    fn has_opt() -> (differs: bool)
        ensures
            differs,
    {
        true
    }

    fn validator_name(opt: bool) -> (name: Name)
        ensures
            exists|param: Name| #[trigger]
                call_ensures(T::validator_name, (false,), param) && name@ == name_with(
                    ""@,
                    if opt {
                        "NonEmptyVec"@
                    } else {
                        "Vec"@
                    },
                    seq![param@],
                ),
    {
        proof {
            reveal_strlit("");
            reveal_strlit("NonEmptyVec");
            reveal_strlit("Vec");
        }
        name_of_one(
            "",
            if opt {
                "NonEmptyVec"
            } else {
                "Vec"
            },
            T::validator_name(false),
        )
    }

    /// The array of what `T` resolves to, not empty where `opt` is set: the
    /// generator changes as resolving `T` changes it, and an error of that
    /// is handed on.
    fn validator(gen: &mut SchemaGenerator, opt: bool) -> (validator: Result<
        ValidatorTree,
        SchemaError,
    >)
        ensures
            generator_wf(final(gen)@),
            match validator {
                Ok(ValidatorTree::Array { contains, items, prefix, rules }) => {
                    &&& contains@.len() == 0
                    &&& prefix@.len() == 0
                    &&& exists|start: fog_pack::validator::ArrayValidator|
                        rules == #[trigger] sequence_rules(start, opt)
                    &&& resolved::<T>(old(gen)@, final(gen)@, false, Ok(*items))
                },
                Ok(_) => false,
                Err(_) => resolved::<T>(old(gen)@, final(gen)@, false, validator),
            },
    {
        match gen.type_add::<T>() {
            Ok(inner) => Ok(sequence_validator(inner, opt)),
            Err(e) => Err(e),
        }
    }
}

impl<T: FogValidate> FogValidate for std::collections::BTreeSet<T> {
    fn origin(opt: bool) -> (marker: String)
        ensures
            marker@ == "Set"@,
    {
        String::from_str("Set")
    }

    fn should_reference(opt: bool) -> (shared: bool)
        ensures
            !shared,
    {
        false
    }

    fn has_opt() -> (differs: bool)
        ensures
            differs,
    {
        true
    }

    fn validator_name(opt: bool) -> (name: Name)
        ensures
            exists|param: Name| #[trigger]
                call_ensures(T::validator_name, (false,), param) && name@ == name_with(
                    ""@,
                    if opt {
                        "NonEmptySet"@
                    } else {
                        "Set"@
                    },
                    seq![param@],
                ),
    {
        proof {
            reveal_strlit("");
            reveal_strlit("NonEmptySet");
            reveal_strlit("Set");
        }
        name_of_one(
            "",
            if opt {
                "NonEmptySet"
            } else {
                "Set"
            },
            T::validator_name(false),
        )
    }

    /// The array of different items of what `T` resolves to, not empty
    /// where `opt` is set: the
    /// generator changes as resolving `T` changes it, and an error of that
    /// is handed on.
    fn validator(gen: &mut SchemaGenerator, opt: bool) -> (validator: Result<
        ValidatorTree,
        SchemaError,
    >)
        ensures
            generator_wf(final(gen)@),
            match validator {
                Ok(ValidatorTree::Array { contains, items, prefix, rules }) => {
                    &&& contains@.len() == 0
                    &&& prefix@.len() == 0
                    &&& exists|start: fog_pack::validator::ArrayValidator|
                        rules == #[trigger] set_rules(start, opt)
                    &&& resolved::<T>(old(gen)@, final(gen)@, false, Ok(*items))
                },
                Ok(_) => false,
                Err(_) => resolved::<T>(old(gen)@, final(gen)@, false, validator),
            },
    {
        match gen.type_add::<T>() {
            Ok(inner) => Ok(set_validator(inner, opt)),
            Err(e) => Err(e),
        }
    }
}

impl<T: FogValidate, H> FogValidate for std::collections::HashSet<T, H> {
    fn origin(opt: bool) -> (marker: String)
        ensures
            marker@ == "Set"@,
    {
        String::from_str("Set")
    }

    fn should_reference(opt: bool) -> (shared: bool)
        ensures
            !shared,
    {
        false
    }

    fn has_opt() -> (differs: bool)
        ensures
            differs,
    {
        true
    }

    fn validator_name(opt: bool) -> (name: Name)
        ensures
            exists|param: Name| #[trigger]
                call_ensures(T::validator_name, (false,), param) && name@ == name_with(
                    ""@,
                    if opt {
                        "NonEmptySet"@
                    } else {
                        "Set"@
                    },
                    seq![param@],
                ),
    {
        proof {
            reveal_strlit("");
            reveal_strlit("NonEmptySet");
            reveal_strlit("Set");
        }
        name_of_one(
            "",
            if opt {
                "NonEmptySet"
            } else {
                "Set"
            },
            T::validator_name(false),
        )
    }

    /// The array of different items of what `T` resolves to, not empty
    /// where `opt` is set: the
    /// generator changes as resolving `T` changes it, and an error of that
    /// is handed on.
    fn validator(gen: &mut SchemaGenerator, opt: bool) -> (validator: Result<
        ValidatorTree,
        SchemaError,
    >)
        ensures
            generator_wf(final(gen)@),
            match validator {
                Ok(ValidatorTree::Array { contains, items, prefix, rules }) => {
                    &&& contains@.len() == 0
                    &&& prefix@.len() == 0
                    &&& exists|start: fog_pack::validator::ArrayValidator|
                        rules == #[trigger] set_rules(start, opt)
                    &&& resolved::<T>(old(gen)@, final(gen)@, false, Ok(*items))
                },
                Ok(_) => false,
                Err(_) => resolved::<T>(old(gen)@, final(gen)@, false, validator),
            },
    {
        match gen.type_add::<T>() {
            Ok(inner) => Ok(set_validator(inner, opt)),
            Err(e) => Err(e),
        }
    }
}

} // verus!
