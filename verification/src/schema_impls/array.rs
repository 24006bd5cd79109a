//! Descriptors of arrays of a fixed length, up to 32 items.

use vstd::prelude::*;
use vstd::string::StringExecFns;
use crate::error::SchemaError;
use crate::fog::{array_max_len, array_max_len_set, array_min_len, array_min_len_set, array_new};
use crate::generator::{generator_wf, resolved, FogValidate, SchemaGenerator};
use crate::name::{name_with, plain_name, Name};
use crate::schema_impls::basics::{marker_of, marker_with, name_of_one};
use crate::tree::ValidatorTree;

verus! {

/// The rules of an array of exactly `len` items, as fog-pack makes them of
/// the rules `start`: at least `len` items, then at most `len`.
pub open spec fn sized_rules(
    start: fog_pack::validator::ArrayValidator,
    len: u32,
) -> fog_pack::validator::ArrayValidator {
    array_max_len_set(array_min_len_set(start, len), len)
}

/// The validator of the arrays of exactly `len` items that pass `items`.
/// Its rules are what fog-pack makes of the rules that allow every array,
/// as `sized_rules` says.
pub fn array_validator_of(items: ValidatorTree, len: u32) -> (validator: ValidatorTree)
    ensures
        validator matches ValidatorTree::Array { contains, items: held, prefix, rules }
            && contains@.len() == 0 && prefix@.len() == 0 && *held == items && exists|
            start: fog_pack::validator::ArrayValidator,
        | rules == #[trigger] sized_rules(start, len),
{
    let start = array_new();
    let ghost begun = start;
    let rules = array_max_len(array_min_len(start, len), len);
    assert(rules == sized_rules(begun, len));
    ValidatorTree::Array { contains: Vec::new(), items: Box::new(items), prefix: Vec::new(), rules }
}

impl<T> FogValidate for [T; 0] {
    fn origin(opt: bool) -> (marker: String)
        ensures
            marker@ == "Array0"@,
    {
        String::from_str("Array0")
    }

    fn should_reference(opt: bool) -> (shared: bool)
        ensures
            !shared,
    {
        false
    }

    fn has_opt() -> (differs: bool)
        ensures
            !differs,
    {
        false
    }

    fn validator_name(opt: bool) -> (name: Name)
        ensures
            name@ == plain_name(""@, "Array0"@),
    {
        proof {
            reveal_strlit("");
            reveal_strlit("Array0");
        }
        Name::new("", "Array0")
    }

    /// The empty array: no item, by the rules that fog-pack makes of those
    /// that allow every array.
    fn validator(gen: &mut SchemaGenerator, opt: bool) -> (validator: Result<
        ValidatorTree,
        SchemaError,
    >)
        ensures
            *final(gen) == *old(gen),
            validator matches Ok(ValidatorTree::Array { contains, items, prefix, rules })
                && contains@.len() == 0 && prefix@.len() == 0 && *items is Any && exists|
                start: fog_pack::validator::ArrayValidator,
            | rules == #[trigger] array_max_len_set(start, 0),
    {
        let rules = array_max_len(array_new(), 0);
        Ok(
            ValidatorTree::Array {
                contains: Vec::new(),
                items: Box::new(ValidatorTree::Any),
                prefix: Vec::new(),
                rules,
            },
        )
    }
}

impl<T: FogValidate> FogValidate for [T; 1] {
    /// The marker tells the descriptor of the parameter too: two shapes of
    /// this kind are the same descriptor only where their parameters are.
    fn origin(opt: bool) -> (marker: String)
        ensures
            exists|inner: String| #[trigger]
                call_ensures(T::origin, (false,), inner) && marker@ == marker_of(
                    "Array1"@,
                    inner@,
                ),
    {
        marker_with("Array1", T::origin(false))
    }

    fn should_reference(opt: bool) -> (shared: bool)
        ensures
            shared,
    {
        true
    }

    fn has_opt() -> (differs: bool)
        ensures
            !differs,
    {
        false
    }

    fn validator_name(opt: bool) -> (name: Name)
        ensures
            exists|param: Name| #[trigger]
                call_ensures(T::validator_name, (false,), param) && name@ == name_with(
                    ""@,
                    "Array1"@,
                    seq![param@],
                ),
    {
        proof {
            reveal_strlit("");
            reveal_strlit("Array1");
        }
        name_of_one("", "Array1", T::validator_name(false))
    }

    /// The array of 1 of what `T` resolves to: the generator changes as
    /// resolving `T` changes it, and an error of that is handed on.
    fn validator(gen: &mut SchemaGenerator, opt: bool) -> (validator: Result<
        ValidatorTree,
        SchemaError,
    >)
        ensures
            generator_wf(final(gen)@),
            match validator {
                Ok(ValidatorTree::Array { contains, items, prefix, rules }) => {
                    &&& contains@.len() == 0
                    &&& prefix@.len() == 0
                    &&& exists|start: fog_pack::validator::ArrayValidator|
                        rules == #[trigger] sized_rules(start, 1)
                    &&& resolved::<T>(old(gen)@, final(gen)@, false, Ok(*items))
                },
                Ok(_) => false,
                Err(_) => resolved::<T>(old(gen)@, final(gen)@, false, validator),
            },
    {
        match gen.type_add::<T>() {
            Ok(inner) => Ok(array_validator_of(inner, 1)),
            Err(e) => Err(e),
        }
    }
}

impl<T: FogValidate> FogValidate for [T; 2] {
    /// The marker tells the descriptor of the parameter too: two shapes of
    /// this kind are the same descriptor only where their parameters are.
    fn origin(opt: bool) -> (marker: String)
        ensures
            exists|inner: String| #[trigger]
                call_ensures(T::origin, (false,), inner) && marker@ == marker_of(
                    "Array2"@,
                    inner@,
                ),
    {
        marker_with("Array2", T::origin(false))
    }

    fn should_reference(opt: bool) -> (shared: bool)
        ensures
            shared,
    {
        true
    }

    fn has_opt() -> (differs: bool)
        ensures
            !differs,
    {
        false
    }

    fn validator_name(opt: bool) -> (name: Name)
        ensures
            exists|param: Name| #[trigger]
                call_ensures(T::validator_name, (false,), param) && name@ == name_with(
                    ""@,
                    "Array2"@,
                    seq![param@],
                ),
    {
        proof {
            reveal_strlit("");
            reveal_strlit("Array2");
        }
        name_of_one("", "Array2", T::validator_name(false))
    }

    /// The array of 2 of what `T` resolves to: the generator changes as
    /// resolving `T` changes it, and an error of that is handed on.
    fn validator(gen: &mut SchemaGenerator, opt: bool) -> (validator: Result<
        ValidatorTree,
        SchemaError,
    >)
        ensures
            generator_wf(final(gen)@),
            match validator {
                Ok(ValidatorTree::Array { contains, items, prefix, rules }) => {
                    &&& contains@.len() == 0
                    &&& prefix@.len() == 0
                    &&& exists|start: fog_pack::validator::ArrayValidator|
                        rules == #[trigger] sized_rules(start, 2)
                    &&& resolved::<T>(old(gen)@, final(gen)@, false, Ok(*items))
                },
                Ok(_) => false,
                Err(_) => resolved::<T>(old(gen)@, final(gen)@, false, validator),
            },
    {
        match gen.type_add::<T>() {
            Ok(inner) => Ok(array_validator_of(inner, 2)),
            Err(e) => Err(e),
        }
    }
}

impl<T: FogValidate> FogValidate for [T; 3] {
    /// The marker tells the descriptor of the parameter too: two shapes of
    /// this kind are the same descriptor only where their parameters are.
    fn origin(opt: bool) -> (marker: String)
        ensures
            exists|inner: String| #[trigger]
                call_ensures(T::origin, (false,), inner) && marker@ == marker_of(
                    "Array3"@,
                    inner@,
                ),
    {
        marker_with("Array3", T::origin(false))
    }

    fn should_reference(opt: bool) -> (shared: bool)
        ensures
            shared,
    {
        true
    }

    fn has_opt() -> (differs: bool)
        ensures
            !differs,
    {
        false
    }

    fn validator_name(opt: bool) -> (name: Name)
        ensures
            exists|param: Name| #[trigger]
                call_ensures(T::validator_name, (false,), param) && name@ == name_with(
                    ""@,
                    "Array3"@,
                    seq![param@],
                ),
    {
        proof {
            reveal_strlit("");
            reveal_strlit("Array3");
        }
        name_of_one("", "Array3", T::validator_name(false))
    }

    /// The array of 3 of what `T` resolves to: the generator changes as
    /// resolving `T` changes it, and an error of that is handed on.
    fn validator(gen: &mut SchemaGenerator, opt: bool) -> (validator: Result<
        ValidatorTree,
        SchemaError,
    >)
        ensures
            generator_wf(final(gen)@),
            match validator {
                Ok(ValidatorTree::Array { contains, items, prefix, rules }) => {
                    &&& contains@.len() == 0
                    &&& prefix@.len() == 0
                    &&& exists|start: fog_pack::validator::ArrayValidator|
                        rules == #[trigger] sized_rules(start, 3)
                    &&& resolved::<T>(old(gen)@, final(gen)@, false, Ok(*items))
                },
                Ok(_) => false,
                Err(_) => resolved::<T>(old(gen)@, final(gen)@, false, validator),
            },
    {
        match gen.type_add::<T>() {
            Ok(inner) => Ok(array_validator_of(inner, 3)),
            Err(e) => Err(e),
        }
    }
}

impl<T: FogValidate> FogValidate for [T; 4] {
    /// The marker tells the descriptor of the parameter too: two shapes of
    /// this kind are the same descriptor only where their parameters are.
    fn origin(opt: bool) -> (marker: String)
        ensures
            exists|inner: String| #[trigger]
                call_ensures(T::origin, (false,), inner) && marker@ == marker_of(
                    "Array4"@,
                    inner@,
                ),
    {
        marker_with("Array4", T::origin(false))
    }

    fn should_reference(opt: bool) -> (shared: bool)
        ensures
            shared,
    {
        true
    }

    fn has_opt() -> (differs: bool)
        ensures
            !differs,
    {
        false
    }

    fn validator_name(opt: bool) -> (name: Name)
        ensures
            exists|param: Name| #[trigger]
                call_ensures(T::validator_name, (false,), param) && name@ == name_with(
                    ""@,
                    "Array4"@,
                    seq![param@],
                ),
    {
        proof {
            reveal_strlit("");
            reveal_strlit("Array4");
        }
        name_of_one("", "Array4", T::validator_name(false))
    }

    /// The array of 4 of what `T` resolves to: the generator changes as
    /// resolving `T` changes it, and an error of that is handed on.
    fn validator(gen: &mut SchemaGenerator, opt: bool) -> (validator: Result<
        ValidatorTree,
        SchemaError,
    >)
        ensures
            generator_wf(final(gen)@),
            match validator {
                Ok(ValidatorTree::Array { contains, items, prefix, rules }) => {
                    &&& contains@.len() == 0
                    &&& prefix@.len() == 0
                    &&& exists|start: fog_pack::validator::ArrayValidator|
                        rules == #[trigger] sized_rules(start, 4)
                    &&& resolved::<T>(old(gen)@, final(gen)@, false, Ok(*items))
                },
                Ok(_) => false,
                Err(_) => resolved::<T>(old(gen)@, final(gen)@, false, validator),
            },
    {
        match gen.type_add::<T>() {
            Ok(inner) => Ok(array_validator_of(inner, 4)),
            Err(e) => Err(e),
        }
    }
}

impl<T: FogValidate> FogValidate for [T; 5] {
    /// The marker tells the descriptor of the parameter too: two shapes of
    /// this kind are the same descriptor only where their parameters are.
    fn origin(opt: bool) -> (marker: String)
        ensures
            exists|inner: String| #[trigger]
                call_ensures(T::origin, (false,), inner) && marker@ == marker_of(
                    "Array5"@,
                    inner@,
                ),
    {
        marker_with("Array5", T::origin(false))
    }

    fn should_reference(opt: bool) -> (shared: bool)
        ensures
            shared,
    {
        true
    }

    fn has_opt() -> (differs: bool)
        ensures
            !differs,
    {
        false
    }

    fn validator_name(opt: bool) -> (name: Name)
        ensures
            exists|param: Name| #[trigger]
                call_ensures(T::validator_name, (false,), param) && name@ == name_with(
                    ""@,
                    "Array5"@,
                    seq![param@],
                ),
    {
        proof {
            reveal_strlit("");
            reveal_strlit("Array5");
        }
        name_of_one("", "Array5", T::validator_name(false))
    }

    /// The array of 5 of what `T` resolves to: the generator changes as
    /// resolving `T` changes it, and an error of that is handed on.
    fn validator(gen: &mut SchemaGenerator, opt: bool) -> (validator: Result<
        ValidatorTree,
        SchemaError,
    >)
        ensures
            generator_wf(final(gen)@),
            match validator {
                Ok(ValidatorTree::Array { contains, items, prefix, rules }) => {
                    &&& contains@.len() == 0
                    &&& prefix@.len() == 0
                    &&& exists|start: fog_pack::validator::ArrayValidator|
                        rules == #[trigger] sized_rules(start, 5)
                    &&& resolved::<T>(old(gen)@, final(gen)@, false, Ok(*items))
                },
                Ok(_) => false,
                Err(_) => resolved::<T>(old(gen)@, final(gen)@, false, validator),
            },
    {
        match gen.type_add::<T>() {
            Ok(inner) => Ok(array_validator_of(inner, 5)),
            Err(e) => Err(e),
        }
    }
}

impl<T: FogValidate> FogValidate for [T; 6] {
    /// The marker tells the descriptor of the parameter too: two shapes of
    /// this kind are the same descriptor only where their parameters are.
    fn origin(opt: bool) -> (marker: String)
        ensures
            exists|inner: String| #[trigger]
                call_ensures(T::origin, (false,), inner) && marker@ == marker_of(
                    "Array6"@,
                    inner@,
                ),
    {
        marker_with("Array6", T::origin(false))
    }

    fn should_reference(opt: bool) -> (shared: bool)
        ensures
            shared,
    {
        true
    }

    fn has_opt() -> (differs: bool)
        ensures
            !differs,
    {
        false
    }

    fn validator_name(opt: bool) -> (name: Name)
        ensures
            exists|param: Name| #[trigger]
                call_ensures(T::validator_name, (false,), param) && name@ == name_with(
                    ""@,
                    "Array6"@,
                    seq![param@],
                ),
    {
        proof {
            reveal_strlit("");
            reveal_strlit("Array6");
        }
        name_of_one("", "Array6", T::validator_name(false))
    }

    /// The array of 6 of what `T` resolves to: the generator changes as
    /// resolving `T` changes it, and an error of that is handed on.
    fn validator(gen: &mut SchemaGenerator, opt: bool) -> (validator: Result<
        ValidatorTree,
        SchemaError,
    >)
        ensures
            generator_wf(final(gen)@),
            match validator {
                Ok(ValidatorTree::Array { contains, items, prefix, rules }) => {
                    &&& contains@.len() == 0
                    &&& prefix@.len() == 0
                    &&& exists|start: fog_pack::validator::ArrayValidator|
                        rules == #[trigger] sized_rules(start, 6)
                    &&& resolved::<T>(old(gen)@, final(gen)@, false, Ok(*items))
                },
                Ok(_) => false,
                Err(_) => resolved::<T>(old(gen)@, final(gen)@, false, validator),
            },
    {
        match gen.type_add::<T>() {
            Ok(inner) => Ok(array_validator_of(inner, 6)),
            Err(e) => Err(e),
        }
    }
}

impl<T: FogValidate> FogValidate for [T; 7] {
    /// The marker tells the descriptor of the parameter too: two shapes of
    /// this kind are the same descriptor only where their parameters are.
    fn origin(opt: bool) -> (marker: String)
        ensures
            exists|inner: String| #[trigger]
                call_ensures(T::origin, (false,), inner) && marker@ == marker_of(
                    "Array7"@,
                    inner@,
                ),
    {
        marker_with("Array7", T::origin(false))
    }

    fn should_reference(opt: bool) -> (shared: bool)
        ensures
            shared,
    {
        true
    }

    fn has_opt() -> (differs: bool)
        ensures
            !differs,
    {
        false
    }

    fn validator_name(opt: bool) -> (name: Name)
        ensures
            exists|param: Name| #[trigger]
                call_ensures(T::validator_name, (false,), param) && name@ == name_with(
                    ""@,
                    "Array7"@,
                    seq![param@],
                ),
    {
        proof {
            reveal_strlit("");
            reveal_strlit("Array7");
        }
        name_of_one("", "Array7", T::validator_name(false))
    }

    /// The array of 7 of what `T` resolves to: the generator changes as
    /// resolving `T` changes it, and an error of that is handed on.
    fn validator(gen: &mut SchemaGenerator, opt: bool) -> (validator: Result<
        ValidatorTree,
        SchemaError,
    >)
        ensures
            generator_wf(final(gen)@),
            match validator {
                Ok(ValidatorTree::Array { contains, items, prefix, rules }) => {
                    &&& contains@.len() == 0
                    &&& prefix@.len() == 0
                    &&& exists|start: fog_pack::validator::ArrayValidator|
                        rules == #[trigger] sized_rules(start, 7)
                    &&& resolved::<T>(old(gen)@, final(gen)@, false, Ok(*items))
                },
                Ok(_) => false,
                Err(_) => resolved::<T>(old(gen)@, final(gen)@, false, validator),
            },
    {
        match gen.type_add::<T>() {
            Ok(inner) => Ok(array_validator_of(inner, 7)),
            Err(e) => Err(e),
        }
    }
}

impl<T: FogValidate> FogValidate for [T; 8] {
    /// The marker tells the descriptor of the parameter too: two shapes of
    /// this kind are the same descriptor only where their parameters are.
    fn origin(opt: bool) -> (marker: String)
        ensures
            exists|inner: String| #[trigger]
                call_ensures(T::origin, (false,), inner) && marker@ == marker_of(
                    "Array8"@,
                    inner@,
                ),
    {
        marker_with("Array8", T::origin(false))
    }

    fn should_reference(opt: bool) -> (shared: bool)
        ensures
            shared,
    {
        true
    }

    fn has_opt() -> (differs: bool)
        ensures
            !differs,
    {
        false
    }

    fn validator_name(opt: bool) -> (name: Name)
        ensures
            exists|param: Name| #[trigger]
                call_ensures(T::validator_name, (false,), param) && name@ == name_with(
                    ""@,
                    "Array8"@,
                    seq![param@],
                ),
    {
        proof {
            reveal_strlit("");
            reveal_strlit("Array8");
        }
        name_of_one("", "Array8", T::validator_name(false))
    }

    /// The array of 8 of what `T` resolves to: the generator changes as
    /// resolving `T` changes it, and an error of that is handed on.
    fn validator(gen: &mut SchemaGenerator, opt: bool) -> (validator: Result<
        ValidatorTree,
        SchemaError,
    >)
        ensures
            generator_wf(final(gen)@),
            match validator {
                Ok(ValidatorTree::Array { contains, items, prefix, rules }) => {
                    &&& contains@.len() == 0
                    &&& prefix@.len() == 0
                    &&& exists|start: fog_pack::validator::ArrayValidator|
                        rules == #[trigger] sized_rules(start, 8)
                    &&& resolved::<T>(old(gen)@, final(gen)@, false, Ok(*items))
                },
                Ok(_) => false,
                Err(_) => resolved::<T>(old(gen)@, final(gen)@, false, validator),
            },
    {
        match gen.type_add::<T>() {
            Ok(inner) => Ok(array_validator_of(inner, 8)),
            Err(e) => Err(e),
        }
    }
}

impl<T: FogValidate> FogValidate for [T; 9] {
    /// The marker tells the descriptor of the parameter too: two shapes of
    /// this kind are the same descriptor only where their parameters are.
    fn origin(opt: bool) -> (marker: String)
        ensures
            exists|inner: String| #[trigger]
                call_ensures(T::origin, (false,), inner) && marker@ == marker_of(
                    "Array9"@,
                    inner@,
                ),
    {
        marker_with("Array9", T::origin(false))
    }

    fn should_reference(opt: bool) -> (shared: bool)
        ensures
            shared,
    {
        true
    }

    fn has_opt() -> (differs: bool)
        ensures
            !differs,
    {
        false
    }

    fn validator_name(opt: bool) -> (name: Name)
        ensures
            exists|param: Name| #[trigger]
                call_ensures(T::validator_name, (false,), param) && name@ == name_with(
                    ""@,
                    "Array9"@,
                    seq![param@],
                ),
    {
        proof {
            reveal_strlit("");
            reveal_strlit("Array9");
        }
        name_of_one("", "Array9", T::validator_name(false))
    }

    /// The array of 9 of what `T` resolves to: the generator changes as
    /// resolving `T` changes it, and an error of that is handed on.
    fn validator(gen: &mut SchemaGenerator, opt: bool) -> (validator: Result<
        ValidatorTree,
        SchemaError,
    >)
        ensures
            generator_wf(final(gen)@),
            match validator {
                Ok(ValidatorTree::Array { contains, items, prefix, rules }) => {
                    &&& contains@.len() == 0
                    &&& prefix@.len() == 0
                    &&& exists|start: fog_pack::validator::ArrayValidator|
                        rules == #[trigger] sized_rules(start, 9)
                    &&& resolved::<T>(old(gen)@, final(gen)@, false, Ok(*items))
                },
                Ok(_) => false,
                Err(_) => resolved::<T>(old(gen)@, final(gen)@, false, validator),
            },
    {
        match gen.type_add::<T>() {
            Ok(inner) => Ok(array_validator_of(inner, 9)),
            Err(e) => Err(e),
        }
    }
}

impl<T: FogValidate> FogValidate for [T; 10] {
    /// The marker tells the descriptor of the parameter too: two shapes of
    /// this kind are the same descriptor only where their parameters are.
    fn origin(opt: bool) -> (marker: String)
        ensures
            exists|inner: String| #[trigger]
                call_ensures(T::origin, (false,), inner) && marker@ == marker_of(
                    "Array10"@,
                    inner@,
                ),
    {
        marker_with("Array10", T::origin(false))
    }

    fn should_reference(opt: bool) -> (shared: bool)
        ensures
            shared,
    {
        true
    }

    fn has_opt() -> (differs: bool)
        ensures
            !differs,
    {
        false
    }

    fn validator_name(opt: bool) -> (name: Name)
        ensures
            exists|param: Name| #[trigger]
                call_ensures(T::validator_name, (false,), param) && name@ == name_with(
                    ""@,
                    "Array10"@,
                    seq![param@],
                ),
    {
        proof {
            reveal_strlit("");
            reveal_strlit("Array10");
        }
        name_of_one("", "Array10", T::validator_name(false))
    }

    /// The array of 10 of what `T` resolves to: the generator changes as
    /// resolving `T` changes it, and an error of that is handed on.
    fn validator(gen: &mut SchemaGenerator, opt: bool) -> (validator: Result<
        ValidatorTree,
        SchemaError,
    >)
        ensures
            generator_wf(final(gen)@),
            match validator {
                Ok(ValidatorTree::Array { contains, items, prefix, rules }) => {
                    &&& contains@.len() == 0
                    &&& prefix@.len() == 0
                    &&& exists|start: fog_pack::validator::ArrayValidator|
                        rules == #[trigger] sized_rules(start, 10)
                    &&& resolved::<T>(old(gen)@, final(gen)@, false, Ok(*items))
                },
                Ok(_) => false,
                Err(_) => resolved::<T>(old(gen)@, final(gen)@, false, validator),
            },
    {
        match gen.type_add::<T>() {
            Ok(inner) => Ok(array_validator_of(inner, 10)),
            Err(e) => Err(e),
        }
    }
}

impl<T: FogValidate> FogValidate for [T; 11] {
    /// The marker tells the descriptor of the parameter too: two shapes of
    /// this kind are the same descriptor only where their parameters are.
    fn origin(opt: bool) -> (marker: String)
        ensures
            exists|inner: String| #[trigger]
                call_ensures(T::origin, (false,), inner) && marker@ == marker_of(
                    "Array11"@,
                    inner@,
                ),
    {
        marker_with("Array11", T::origin(false))
    }

    fn should_reference(opt: bool) -> (shared: bool)
        ensures
            shared,
    {
        true
    }

    fn has_opt() -> (differs: bool)
        ensures
            !differs,
    {
        false
    }

    fn validator_name(opt: bool) -> (name: Name)
        ensures
            exists|param: Name| #[trigger]
                call_ensures(T::validator_name, (false,), param) && name@ == name_with(
                    ""@,
                    "Array11"@,
                    seq![param@],
                ),
    {
        proof {
            reveal_strlit("");
            reveal_strlit("Array11");
        }
        name_of_one("", "Array11", T::validator_name(false))
    }

    /// The array of 11 of what `T` resolves to: the generator changes as
    /// resolving `T` changes it, and an error of that is handed on.
    fn validator(gen: &mut SchemaGenerator, opt: bool) -> (validator: Result<
        ValidatorTree,
        SchemaError,
    >)
        ensures
            generator_wf(final(gen)@),
            match validator {
                Ok(ValidatorTree::Array { contains, items, prefix, rules }) => {
                    &&& contains@.len() == 0
                    &&& prefix@.len() == 0
                    &&& exists|start: fog_pack::validator::ArrayValidator|
                        rules == #[trigger] sized_rules(start, 11)
                    &&& resolved::<T>(old(gen)@, final(gen)@, false, Ok(*items))
                },
                Ok(_) => false,
                Err(_) => resolved::<T>(old(gen)@, final(gen)@, false, validator),
            },
    {
        match gen.type_add::<T>() {
            Ok(inner) => Ok(array_validator_of(inner, 11)),
            Err(e) => Err(e),
        }
    }
}

impl<T: FogValidate> FogValidate for [T; 12] {
    /// The marker tells the descriptor of the parameter too: two shapes of
    /// this kind are the same descriptor only where their parameters are.
    fn origin(opt: bool) -> (marker: String)
        ensures
            exists|inner: String| #[trigger]
                call_ensures(T::origin, (false,), inner) && marker@ == marker_of(
                    "Array12"@,
                    inner@,
                ),
    {
        marker_with("Array12", T::origin(false))
    }

    fn should_reference(opt: bool) -> (shared: bool)
        ensures
            shared,
    {
        true
    }

    fn has_opt() -> (differs: bool)
        ensures
            !differs,
    {
        false
    }

    fn validator_name(opt: bool) -> (name: Name)
        ensures
            exists|param: Name| #[trigger]
                call_ensures(T::validator_name, (false,), param) && name@ == name_with(
                    ""@,
                    "Array12"@,
                    seq![param@],
                ),
    {
        proof {
            reveal_strlit("");
            reveal_strlit("Array12");
        }
        name_of_one("", "Array12", T::validator_name(false))
    }

    /// The array of 12 of what `T` resolves to: the generator changes as
    /// resolving `T` changes it, and an error of that is handed on.
    fn validator(gen: &mut SchemaGenerator, opt: bool) -> (validator: Result<
        ValidatorTree,
        SchemaError,
    >)
        ensures
            generator_wf(final(gen)@),
            match validator {
                Ok(ValidatorTree::Array { contains, items, prefix, rules }) => {
                    &&& contains@.len() == 0
                    &&& prefix@.len() == 0
                    &&& exists|start: fog_pack::validator::ArrayValidator|
                        rules == #[trigger] sized_rules(start, 12)
                    &&& resolved::<T>(old(gen)@, final(gen)@, false, Ok(*items))
                },
                Ok(_) => false,
                Err(_) => resolved::<T>(old(gen)@, final(gen)@, false, validator),
            },
    {
        match gen.type_add::<T>() {
            Ok(inner) => Ok(array_validator_of(inner, 12)),
            Err(e) => Err(e),
        }
    }
}

impl<T: FogValidate> FogValidate for [T; 13] {
    /// The marker tells the descriptor of the parameter too: two shapes of
    /// this kind are the same descriptor only where their parameters are.
    fn origin(opt: bool) -> (marker: String)
        ensures
            exists|inner: String| #[trigger]
                call_ensures(T::origin, (false,), inner) && marker@ == marker_of(
                    "Array13"@,
                    inner@,
                ),
    {
        marker_with("Array13", T::origin(false))
    }

    fn should_reference(opt: bool) -> (shared: bool)
        ensures
            shared,
    {
        true
    }

    fn has_opt() -> (differs: bool)
        ensures
            !differs,
    {
        false
    }

    fn validator_name(opt: bool) -> (name: Name)
        ensures
            exists|param: Name| #[trigger]
                call_ensures(T::validator_name, (false,), param) && name@ == name_with(
                    ""@,
                    "Array13"@,
                    seq![param@],
                ),
    {
        proof {
            reveal_strlit("");
            reveal_strlit("Array13");
        }
        name_of_one("", "Array13", T::validator_name(false))
    }

    /// The array of 13 of what `T` resolves to: the generator changes as
    /// resolving `T` changes it, and an error of that is handed on.
    fn validator(gen: &mut SchemaGenerator, opt: bool) -> (validator: Result<
        ValidatorTree,
        SchemaError,
    >)
        ensures
            generator_wf(final(gen)@),
            match validator {
                Ok(ValidatorTree::Array { contains, items, prefix, rules }) => {
                    &&& contains@.len() == 0
                    &&& prefix@.len() == 0
                    &&& exists|start: fog_pack::validator::ArrayValidator|
                        rules == #[trigger] sized_rules(start, 13)
                    &&& resolved::<T>(old(gen)@, final(gen)@, false, Ok(*items))
                },
                Ok(_) => false,
                Err(_) => resolved::<T>(old(gen)@, final(gen)@, false, validator),
            },
    {
        match gen.type_add::<T>() {
            Ok(inner) => Ok(array_validator_of(inner, 13)),
            Err(e) => Err(e),
        }
    }
}

impl<T: FogValidate> FogValidate for [T; 14] {
    /// The marker tells the descriptor of the parameter too: two shapes of
    /// this kind are the same descriptor only where their parameters are.
    fn origin(opt: bool) -> (marker: String)
        ensures
            exists|inner: String| #[trigger]
                call_ensures(T::origin, (false,), inner) && marker@ == marker_of(
                    "Array14"@,
                    inner@,
                ),
    {
        marker_with("Array14", T::origin(false))
    }

    fn should_reference(opt: bool) -> (shared: bool)
        ensures
            shared,
    {
        true
    }

    fn has_opt() -> (differs: bool)
        ensures
            !differs,
    {
        false
    }

    fn validator_name(opt: bool) -> (name: Name)
        ensures
            exists|param: Name| #[trigger]
                call_ensures(T::validator_name, (false,), param) && name@ == name_with(
                    ""@,
                    "Array14"@,
                    seq![param@],
                ),
    {
        proof {
            reveal_strlit("");
            reveal_strlit("Array14");
        }
        name_of_one("", "Array14", T::validator_name(false))
    }

    /// The array of 14 of what `T` resolves to: the generator changes as
    /// resolving `T` changes it, and an error of that is handed on.
    fn validator(gen: &mut SchemaGenerator, opt: bool) -> (validator: Result<
        ValidatorTree,
        SchemaError,
    >)
        ensures
            generator_wf(final(gen)@),
            match validator {
                Ok(ValidatorTree::Array { contains, items, prefix, rules }) => {
                    &&& contains@.len() == 0
                    &&& prefix@.len() == 0
                    &&& exists|start: fog_pack::validator::ArrayValidator|
                        rules == #[trigger] sized_rules(start, 14)
                    &&& resolved::<T>(old(gen)@, final(gen)@, false, Ok(*items))
                },
                Ok(_) => false,
                Err(_) => resolved::<T>(old(gen)@, final(gen)@, false, validator),
            },
    {
        match gen.type_add::<T>() {
            Ok(inner) => Ok(array_validator_of(inner, 14)),
            Err(e) => Err(e),
        }
    }
}

impl<T: FogValidate> FogValidate for [T; 15] {
    /// The marker tells the descriptor of the parameter too: two shapes of
    /// this kind are the same descriptor only where their parameters are.
    fn origin(opt: bool) -> (marker: String)
        ensures
            exists|inner: String| #[trigger]
                call_ensures(T::origin, (false,), inner) && marker@ == marker_of(
                    "Array15"@,
                    inner@,
                ),
    {
        marker_with("Array15", T::origin(false))
    }

    fn should_reference(opt: bool) -> (shared: bool)
        ensures
            shared,
    {
        true
    }

    fn has_opt() -> (differs: bool)
        ensures
            !differs,
    {
        false
    }

    fn validator_name(opt: bool) -> (name: Name)
        ensures
            exists|param: Name| #[trigger]
                call_ensures(T::validator_name, (false,), param) && name@ == name_with(
                    ""@,
                    "Array15"@,
                    seq![param@],
                ),
    {
        proof {
            reveal_strlit("");
            reveal_strlit("Array15");
        }
        name_of_one("", "Array15", T::validator_name(false))
    }

    /// The array of 15 of what `T` resolves to: the generator changes as
    /// resolving `T` changes it, and an error of that is handed on.
    fn validator(gen: &mut SchemaGenerator, opt: bool) -> (validator: Result<
        ValidatorTree,
        SchemaError,
    >)
        ensures
            generator_wf(final(gen)@),
            match validator {
                Ok(ValidatorTree::Array { contains, items, prefix, rules }) => {
                    &&& contains@.len() == 0
                    &&& prefix@.len() == 0
                    &&& exists|start: fog_pack::validator::ArrayValidator|
                        rules == #[trigger] sized_rules(start, 15)
                    &&& resolved::<T>(old(gen)@, final(gen)@, false, Ok(*items))
                },
                Ok(_) => false,
                Err(_) => resolved::<T>(old(gen)@, final(gen)@, false, validator),
            },
    {
        match gen.type_add::<T>() {
            Ok(inner) => Ok(array_validator_of(inner, 15)),
            Err(e) => Err(e),
        }
    }
}

impl<T: FogValidate> FogValidate for [T; 16] {
    /// The marker tells the descriptor of the parameter too: two shapes of
    /// this kind are the same descriptor only where their parameters are.
    fn origin(opt: bool) -> (marker: String)
        ensures
            exists|inner: String| #[trigger]
                call_ensures(T::origin, (false,), inner) && marker@ == marker_of(
                    "Array16"@,
                    inner@,
                ),
    {
        marker_with("Array16", T::origin(false))
    }

    fn should_reference(opt: bool) -> (shared: bool)
        ensures
            shared,
    {
        true
    }

    fn has_opt() -> (differs: bool)
        ensures
            !differs,
    {
        false
    }

    fn validator_name(opt: bool) -> (name: Name)
        ensures
            exists|param: Name| #[trigger]
                call_ensures(T::validator_name, (false,), param) && name@ == name_with(
                    ""@,
                    "Array16"@,
                    seq![param@],
                ),
    {
        proof {
            reveal_strlit("");
            reveal_strlit("Array16");
        }
        name_of_one("", "Array16", T::validator_name(false))
    }

    /// The array of 16 of what `T` resolves to: the generator changes as
    /// resolving `T` changes it, and an error of that is handed on.
    fn validator(gen: &mut SchemaGenerator, opt: bool) -> (validator: Result<
        ValidatorTree,
        SchemaError,
    >)
        ensures
            generator_wf(final(gen)@),
            match validator {
                Ok(ValidatorTree::Array { contains, items, prefix, rules }) => {
                    &&& contains@.len() == 0
                    &&& prefix@.len() == 0
                    &&& exists|start: fog_pack::validator::ArrayValidator|
                        rules == #[trigger] sized_rules(start, 16)
                    &&& resolved::<T>(old(gen)@, final(gen)@, false, Ok(*items))
                },
                Ok(_) => false,
                Err(_) => resolved::<T>(old(gen)@, final(gen)@, false, validator),
            },
    {
        match gen.type_add::<T>() {
            Ok(inner) => Ok(array_validator_of(inner, 16)),
            Err(e) => Err(e),
        }
    }
}

impl<T: FogValidate> FogValidate for [T; 17] {
    /// The marker tells the descriptor of the parameter too: two shapes of
    /// this kind are the same descriptor only where their parameters are.
    fn origin(opt: bool) -> (marker: String)
        ensures
            exists|inner: String| #[trigger]
                call_ensures(T::origin, (false,), inner) && marker@ == marker_of(
                    "Array17"@,
                    inner@,
                ),
    {
        marker_with("Array17", T::origin(false))
    }

    fn should_reference(opt: bool) -> (shared: bool)
        ensures
            shared,
    {
        true
    }

    fn has_opt() -> (differs: bool)
        ensures
            !differs,
    {
        false
    }

    fn validator_name(opt: bool) -> (name: Name)
        ensures
            exists|param: Name| #[trigger]
                call_ensures(T::validator_name, (false,), param) && name@ == name_with(
                    ""@,
                    "Array17"@,
                    seq![param@],
                ),
    {
        proof {
            reveal_strlit("");
            reveal_strlit("Array17");
        }
        name_of_one("", "Array17", T::validator_name(false))
    }

    /// The array of 17 of what `T` resolves to: the generator changes as
    /// resolving `T` changes it, and an error of that is handed on.
    fn validator(gen: &mut SchemaGenerator, opt: bool) -> (validator: Result<
        ValidatorTree,
        SchemaError,
    >)
        ensures
            generator_wf(final(gen)@),
            match validator {
                Ok(ValidatorTree::Array { contains, items, prefix, rules }) => {
                    &&& contains@.len() == 0
                    &&& prefix@.len() == 0
                    &&& exists|start: fog_pack::validator::ArrayValidator|
                        rules == #[trigger] sized_rules(start, 17)
                    &&& resolved::<T>(old(gen)@, final(gen)@, false, Ok(*items))
                },
                Ok(_) => false,
                Err(_) => resolved::<T>(old(gen)@, final(gen)@, false, validator),
            },
    {
        match gen.type_add::<T>() {
            Ok(inner) => Ok(array_validator_of(inner, 17)),
            Err(e) => Err(e),
        }
    }
}

impl<T: FogValidate> FogValidate for [T; 18] {
    /// The marker tells the descriptor of the parameter too: two shapes of
    /// this kind are the same descriptor only where their parameters are.
    fn origin(opt: bool) -> (marker: String)
        ensures
            exists|inner: String| #[trigger]
                call_ensures(T::origin, (false,), inner) && marker@ == marker_of(
                    "Array18"@,
                    inner@,
                ),
    {
        marker_with("Array18", T::origin(false))
    }

    fn should_reference(opt: bool) -> (shared: bool)
        ensures
            shared,
    {
        true
    }

    fn has_opt() -> (differs: bool)
        ensures
            !differs,
    {
        false
    }

    fn validator_name(opt: bool) -> (name: Name)
        ensures
            exists|param: Name| #[trigger]
                call_ensures(T::validator_name, (false,), param) && name@ == name_with(
                    ""@,
                    "Array18"@,
                    seq![param@],
                ),
    {
        proof {
            reveal_strlit("");
            reveal_strlit("Array18");
        }
        name_of_one("", "Array18", T::validator_name(false))
    }

    /// The array of 18 of what `T` resolves to: the generator changes as
    /// resolving `T` changes it, and an error of that is handed on.
    fn validator(gen: &mut SchemaGenerator, opt: bool) -> (validator: Result<
        ValidatorTree,
        SchemaError,
    >)
        ensures
            generator_wf(final(gen)@),
            match validator {
                Ok(ValidatorTree::Array { contains, items, prefix, rules }) => {
                    &&& contains@.len() == 0
                    &&& prefix@.len() == 0
                    &&& exists|start: fog_pack::validator::ArrayValidator|
                        rules == #[trigger] sized_rules(start, 18)
                    &&& resolved::<T>(old(gen)@, final(gen)@, false, Ok(*items))
                },
                Ok(_) => false,
                Err(_) => resolved::<T>(old(gen)@, final(gen)@, false, validator),
            },
    {
        match gen.type_add::<T>() {
            Ok(inner) => Ok(array_validator_of(inner, 18)),
            Err(e) => Err(e),
        }
    }
}

impl<T: FogValidate> FogValidate for [T; 19] {
    /// The marker tells the descriptor of the parameter too: two shapes of
    /// this kind are the same descriptor only where their parameters are.
    fn origin(opt: bool) -> (marker: String)
        ensures
            exists|inner: String| #[trigger]
                call_ensures(T::origin, (false,), inner) && marker@ == marker_of(
                    "Array19"@,
                    inner@,
                ),
    {
        marker_with("Array19", T::origin(false))
    }

    fn should_reference(opt: bool) -> (shared: bool)
        ensures
            shared,
    {
        true
    }

    fn has_opt() -> (differs: bool)
        ensures
            !differs,
    {
        false
    }

    fn validator_name(opt: bool) -> (name: Name)
        ensures
            exists|param: Name| #[trigger]
                call_ensures(T::validator_name, (false,), param) && name@ == name_with(
                    ""@,
                    "Array19"@,
                    seq![param@],
                ),
    {
        proof {
            reveal_strlit("");
            reveal_strlit("Array19");
        }
        name_of_one("", "Array19", T::validator_name(false))
    }

    /// The array of 19 of what `T` resolves to: the generator changes as
    /// resolving `T` changes it, and an error of that is handed on.
    fn validator(gen: &mut SchemaGenerator, opt: bool) -> (validator: Result<
        ValidatorTree,
        SchemaError,
    >)
        ensures
            generator_wf(final(gen)@),
            match validator {
                Ok(ValidatorTree::Array { contains, items, prefix, rules }) => {
                    &&& contains@.len() == 0
                    &&& prefix@.len() == 0
                    &&& exists|start: fog_pack::validator::ArrayValidator|
                        rules == #[trigger] sized_rules(start, 19)
                    &&& resolved::<T>(old(gen)@, final(gen)@, false, Ok(*items))
                },
                Ok(_) => false,
                Err(_) => resolved::<T>(old(gen)@, final(gen)@, false, validator),
            },
    {
        match gen.type_add::<T>() {
            Ok(inner) => Ok(array_validator_of(inner, 19)),
            Err(e) => Err(e),
        }
    }
}

impl<T: FogValidate> FogValidate for [T; 20] {
    /// The marker tells the descriptor of the parameter too: two shapes of
    /// this kind are the same descriptor only where their parameters are.
    fn origin(opt: bool) -> (marker: String)
        ensures
            exists|inner: String| #[trigger]
                call_ensures(T::origin, (false,), inner) && marker@ == marker_of(
                    "Array20"@,
                    inner@,
                ),
    {
        marker_with("Array20", T::origin(false))
    }

    fn should_reference(opt: bool) -> (shared: bool)
        ensures
            shared,
    {
        true
    }

    fn has_opt() -> (differs: bool)
        ensures
            !differs,
    {
        false
    }

    fn validator_name(opt: bool) -> (name: Name)
        ensures
            exists|param: Name| #[trigger]
                call_ensures(T::validator_name, (false,), param) && name@ == name_with(
                    ""@,
                    "Array20"@,
                    seq![param@],
                ),
    {
        proof {
            reveal_strlit("");
            reveal_strlit("Array20");
        }
        name_of_one("", "Array20", T::validator_name(false))
    }

    /// The array of 20 of what `T` resolves to: the generator changes as
    /// resolving `T` changes it, and an error of that is handed on.
    fn validator(gen: &mut SchemaGenerator, opt: bool) -> (validator: Result<
        ValidatorTree,
        SchemaError,
    >)
        ensures
            generator_wf(final(gen)@),
            match validator {
                Ok(ValidatorTree::Array { contains, items, prefix, rules }) => {
                    &&& contains@.len() == 0
                    &&& prefix@.len() == 0
                    &&& exists|start: fog_pack::validator::ArrayValidator|
                        rules == #[trigger] sized_rules(start, 20)
                    &&& resolved::<T>(old(gen)@, final(gen)@, false, Ok(*items))
                },
                Ok(_) => false,
                Err(_) => resolved::<T>(old(gen)@, final(gen)@, false, validator),
            },
    {
        match gen.type_add::<T>() {
            Ok(inner) => Ok(array_validator_of(inner, 20)),
            Err(e) => Err(e),
        }
    }
}

impl<T: FogValidate> FogValidate for [T; 21] {
    /// The marker tells the descriptor of the parameter too: two shapes of
    /// this kind are the same descriptor only where their parameters are.
    fn origin(opt: bool) -> (marker: String)
        ensures
            exists|inner: String| #[trigger]
                call_ensures(T::origin, (false,), inner) && marker@ == marker_of(
                    "Array21"@,
                    inner@,
                ),
    {
        marker_with("Array21", T::origin(false))
    }

    fn should_reference(opt: bool) -> (shared: bool)
        ensures
            shared,
    {
        true
    }

    fn has_opt() -> (differs: bool)
        ensures
            !differs,
    {
        false
    }

    fn validator_name(opt: bool) -> (name: Name)
        ensures
            exists|param: Name| #[trigger]
                call_ensures(T::validator_name, (false,), param) && name@ == name_with(
                    ""@,
                    "Array21"@,
                    seq![param@],
                ),
    {
        proof {
            reveal_strlit("");
            reveal_strlit("Array21");
        }
        name_of_one("", "Array21", T::validator_name(false))
    }

    /// The array of 21 of what `T` resolves to: the generator changes as
    /// resolving `T` changes it, and an error of that is handed on.
    fn validator(gen: &mut SchemaGenerator, opt: bool) -> (validator: Result<
        ValidatorTree,
        SchemaError,
    >)
        ensures
            generator_wf(final(gen)@),
            match validator {
                Ok(ValidatorTree::Array { contains, items, prefix, rules }) => {
                    &&& contains@.len() == 0
                    &&& prefix@.len() == 0
                    &&& exists|start: fog_pack::validator::ArrayValidator|
                        rules == #[trigger] sized_rules(start, 21)
                    &&& resolved::<T>(old(gen)@, final(gen)@, false, Ok(*items))
                },
                Ok(_) => false,
                Err(_) => resolved::<T>(old(gen)@, final(gen)@, false, validator),
            },
    {
        match gen.type_add::<T>() {
            Ok(inner) => Ok(array_validator_of(inner, 21)),
            Err(e) => Err(e),
        }
    }
}

impl<T: FogValidate> FogValidate for [T; 22] {
    /// The marker tells the descriptor of the parameter too: two shapes of
    /// this kind are the same descriptor only where their parameters are.
    fn origin(opt: bool) -> (marker: String)
        ensures
            exists|inner: String| #[trigger]
                call_ensures(T::origin, (false,), inner) && marker@ == marker_of(
                    "Array22"@,
                    inner@,
                ),
    {
        marker_with("Array22", T::origin(false))
    }

    fn should_reference(opt: bool) -> (shared: bool)
        ensures
            shared,
    {
        true
    }

    fn has_opt() -> (differs: bool)
        ensures
            !differs,
    {
        false
    }

    fn validator_name(opt: bool) -> (name: Name)
        ensures
            exists|param: Name| #[trigger]
                call_ensures(T::validator_name, (false,), param) && name@ == name_with(
                    ""@,
                    "Array22"@,
                    seq![param@],
                ),
    {
        proof {
            reveal_strlit("");
            reveal_strlit("Array22");
        }
        name_of_one("", "Array22", T::validator_name(false))
    }

    /// The array of 22 of what `T` resolves to: the generator changes as
    /// resolving `T` changes it, and an error of that is handed on.
    fn validator(gen: &mut SchemaGenerator, opt: bool) -> (validator: Result<
        ValidatorTree,
        SchemaError,
    >)
        ensures
            generator_wf(final(gen)@),
            match validator {
                Ok(ValidatorTree::Array { contains, items, prefix, rules }) => {
                    &&& contains@.len() == 0
                    &&& prefix@.len() == 0
                    &&& exists|start: fog_pack::validator::ArrayValidator|
                        rules == #[trigger] sized_rules(start, 22)
                    &&& resolved::<T>(old(gen)@, final(gen)@, false, Ok(*items))
                },
                Ok(_) => false,
                Err(_) => resolved::<T>(old(gen)@, final(gen)@, false, validator),
            },
    {
        match gen.type_add::<T>() {
            Ok(inner) => Ok(array_validator_of(inner, 22)),
            Err(e) => Err(e),
        }
    }
}

impl<T: FogValidate> FogValidate for [T; 23] {
    /// The marker tells the descriptor of the parameter too: two shapes of
    /// this kind are the same descriptor only where their parameters are.
    fn origin(opt: bool) -> (marker: String)
        ensures
            exists|inner: String| #[trigger]
                call_ensures(T::origin, (false,), inner) && marker@ == marker_of(
                    "Array23"@,
                    inner@,
                ),
    {
        marker_with("Array23", T::origin(false))
    }

    fn should_reference(opt: bool) -> (shared: bool)
        ensures
            shared,
    {
        true
    }

    fn has_opt() -> (differs: bool)
        ensures
            !differs,
    {
        false
    }

    fn validator_name(opt: bool) -> (name: Name)
        ensures
            exists|param: Name| #[trigger]
                call_ensures(T::validator_name, (false,), param) && name@ == name_with(
                    ""@,
                    "Array23"@,
                    seq![param@],
                ),
    {
        proof {
            reveal_strlit("");
            reveal_strlit("Array23");
        }
        name_of_one("", "Array23", T::validator_name(false))
    }

    /// The array of 23 of what `T` resolves to: the generator changes as
    /// resolving `T` changes it, and an error of that is handed on.
    fn validator(gen: &mut SchemaGenerator, opt: bool) -> (validator: Result<
        ValidatorTree,
        SchemaError,
    >)
        ensures
            generator_wf(final(gen)@),
            match validator {
                Ok(ValidatorTree::Array { contains, items, prefix, rules }) => {
                    &&& contains@.len() == 0
                    &&& prefix@.len() == 0
                    &&& exists|start: fog_pack::validator::ArrayValidator|
                        rules == #[trigger] sized_rules(start, 23)
                    &&& resolved::<T>(old(gen)@, final(gen)@, false, Ok(*items))
                },
                Ok(_) => false,
                Err(_) => resolved::<T>(old(gen)@, final(gen)@, false, validator),
            },
    {
        match gen.type_add::<T>() {
            Ok(inner) => Ok(array_validator_of(inner, 23)),
            Err(e) => Err(e),
        }
    }
}

impl<T: FogValidate> FogValidate for [T; 24] {
    /// The marker tells the descriptor of the parameter too: two shapes of
    /// this kind are the same descriptor only where their parameters are.
    fn origin(opt: bool) -> (marker: String)
        ensures
            exists|inner: String| #[trigger]
                call_ensures(T::origin, (false,), inner) && marker@ == marker_of(
                    "Array24"@,
                    inner@,
                ),
    {
        marker_with("Array24", T::origin(false))
    }

    fn should_reference(opt: bool) -> (shared: bool)
        ensures
            shared,
    {
        true
    }

    fn has_opt() -> (differs: bool)
        ensures
            !differs,
    {
        false
    }

    fn validator_name(opt: bool) -> (name: Name)
        ensures
            exists|param: Name| #[trigger]
                call_ensures(T::validator_name, (false,), param) && name@ == name_with(
                    ""@,
                    "Array24"@,
                    seq![param@],
                ),
    {
        proof {
            reveal_strlit("");
            reveal_strlit("Array24");
        }
        name_of_one("", "Array24", T::validator_name(false))
    }

    /// The array of 24 of what `T` resolves to: the generator changes as
    /// resolving `T` changes it, and an error of that is handed on.
    fn validator(gen: &mut SchemaGenerator, opt: bool) -> (validator: Result<
        ValidatorTree,
        SchemaError,
    >)
        ensures
            generator_wf(final(gen)@),
            match validator {
                Ok(ValidatorTree::Array { contains, items, prefix, rules }) => {
                    &&& contains@.len() == 0
                    &&& prefix@.len() == 0
                    &&& exists|start: fog_pack::validator::ArrayValidator|
                        rules == #[trigger] sized_rules(start, 24)
                    &&& resolved::<T>(old(gen)@, final(gen)@, false, Ok(*items))
                },
                Ok(_) => false,
                Err(_) => resolved::<T>(old(gen)@, final(gen)@, false, validator),
            },
    {
        match gen.type_add::<T>() {
            Ok(inner) => Ok(array_validator_of(inner, 24)),
            Err(e) => Err(e),
        }
    }
}

impl<T: FogValidate> FogValidate for [T; 25] {
    /// The marker tells the descriptor of the parameter too: two shapes of
    /// this kind are the same descriptor only where their parameters are.
    fn origin(opt: bool) -> (marker: String)
        ensures
            exists|inner: String| #[trigger]
                call_ensures(T::origin, (false,), inner) && marker@ == marker_of(
                    "Array25"@,
                    inner@,
                ),
    {
        marker_with("Array25", T::origin(false))
    }

    fn should_reference(opt: bool) -> (shared: bool)
        ensures
            shared,
    {
        true
    }

    fn has_opt() -> (differs: bool)
        ensures
            !differs,
    {
        false
    }

    fn validator_name(opt: bool) -> (name: Name)
        ensures
            exists|param: Name| #[trigger]
                call_ensures(T::validator_name, (false,), param) && name@ == name_with(
                    ""@,
                    "Array25"@,
                    seq![param@],
                ),
    {
        proof {
            reveal_strlit("");
            reveal_strlit("Array25");
        }
        name_of_one("", "Array25", T::validator_name(false))
    }

    /// The array of 25 of what `T` resolves to: the generator changes as
    /// resolving `T` changes it, and an error of that is handed on.
    fn validator(gen: &mut SchemaGenerator, opt: bool) -> (validator: Result<
        ValidatorTree,
        SchemaError,
    >)
        ensures
            generator_wf(final(gen)@),
            match validator {
                Ok(ValidatorTree::Array { contains, items, prefix, rules }) => {
                    &&& contains@.len() == 0
                    &&& prefix@.len() == 0
                    &&& exists|start: fog_pack::validator::ArrayValidator|
                        rules == #[trigger] sized_rules(start, 25)
                    &&& resolved::<T>(old(gen)@, final(gen)@, false, Ok(*items))
                },
                Ok(_) => false,
                Err(_) => resolved::<T>(old(gen)@, final(gen)@, false, validator),
            },
    {
        match gen.type_add::<T>() {
            Ok(inner) => Ok(array_validator_of(inner, 25)),
            Err(e) => Err(e),
        }
    }
}

impl<T: FogValidate> FogValidate for [T; 26] {
    /// The marker tells the descriptor of the parameter too: two shapes of
    /// this kind are the same descriptor only where their parameters are.
    fn origin(opt: bool) -> (marker: String)
        ensures
            exists|inner: String| #[trigger]
                call_ensures(T::origin, (false,), inner) && marker@ == marker_of(
                    "Array26"@,
                    inner@,
                ),
    {
        marker_with("Array26", T::origin(false))
    }

    fn should_reference(opt: bool) -> (shared: bool)
        ensures
            shared,
    {
        true
    }

    fn has_opt() -> (differs: bool)
        ensures
            !differs,
    {
        false
    }

    fn validator_name(opt: bool) -> (name: Name)
        ensures
            exists|param: Name| #[trigger]
                call_ensures(T::validator_name, (false,), param) && name@ == name_with(
                    ""@,
                    "Array26"@,
                    seq![param@],
                ),
    {
        proof {
            reveal_strlit("");
            reveal_strlit("Array26");
        }
        name_of_one("", "Array26", T::validator_name(false))
    }

    /// The array of 26 of what `T` resolves to: the generator changes as
    /// resolving `T` changes it, and an error of that is handed on.
    fn validator(gen: &mut SchemaGenerator, opt: bool) -> (validator: Result<
        ValidatorTree,
        SchemaError,
    >)
        ensures
            generator_wf(final(gen)@),
            match validator {
                Ok(ValidatorTree::Array { contains, items, prefix, rules }) => {
                    &&& contains@.len() == 0
                    &&& prefix@.len() == 0
                    &&& exists|start: fog_pack::validator::ArrayValidator|
                        rules == #[trigger] sized_rules(start, 26)
                    &&& resolved::<T>(old(gen)@, final(gen)@, false, Ok(*items))
                },
                Ok(_) => false,
                Err(_) => resolved::<T>(old(gen)@, final(gen)@, false, validator),
            },
    {
        match gen.type_add::<T>() {
            Ok(inner) => Ok(array_validator_of(inner, 26)),
            Err(e) => Err(e),
        }
    }
}

impl<T: FogValidate> FogValidate for [T; 27] {
    /// The marker tells the descriptor of the parameter too: two shapes of
    /// this kind are the same descriptor only where their parameters are.
    fn origin(opt: bool) -> (marker: String)
        ensures
            exists|inner: String| #[trigger]
                call_ensures(T::origin, (false,), inner) && marker@ == marker_of(
                    "Array27"@,
                    inner@,
                ),
    {
        marker_with("Array27", T::origin(false))
    }

    fn should_reference(opt: bool) -> (shared: bool)
        ensures
            shared,
    {
        true
    }

    fn has_opt() -> (differs: bool)
        ensures
            !differs,
    {
        false
    }

    fn validator_name(opt: bool) -> (name: Name)
        ensures
            exists|param: Name| #[trigger]
                call_ensures(T::validator_name, (false,), param) && name@ == name_with(
                    ""@,
                    "Array27"@,
                    seq![param@],
                ),
    {
        proof {
            reveal_strlit("");
            reveal_strlit("Array27");
        }
        name_of_one("", "Array27", T::validator_name(false))
    }

    /// The array of 27 of what `T` resolves to: the generator changes as
    /// resolving `T` changes it, and an error of that is handed on.
    fn validator(gen: &mut SchemaGenerator, opt: bool) -> (validator: Result<
        ValidatorTree,
        SchemaError,
    >)
        ensures
            generator_wf(final(gen)@),
            match validator {
                Ok(ValidatorTree::Array { contains, items, prefix, rules }) => {
                    &&& contains@.len() == 0
                    &&& prefix@.len() == 0
                    &&& exists|start: fog_pack::validator::ArrayValidator|
                        rules == #[trigger] sized_rules(start, 27)
                    &&& resolved::<T>(old(gen)@, final(gen)@, false, Ok(*items))
                },
                Ok(_) => false,
                Err(_) => resolved::<T>(old(gen)@, final(gen)@, false, validator),
            },
    {
        match gen.type_add::<T>() {
            Ok(inner) => Ok(array_validator_of(inner, 27)),
            Err(e) => Err(e),
        }
    }
}

impl<T: FogValidate> FogValidate for [T; 28] {
    /// The marker tells the descriptor of the parameter too: two shapes of
    /// this kind are the same descriptor only where their parameters are.
    fn origin(opt: bool) -> (marker: String)
        ensures
            exists|inner: String| #[trigger]
                call_ensures(T::origin, (false,), inner) && marker@ == marker_of(
                    "Array28"@,
                    inner@,
                ),
    {
        marker_with("Array28", T::origin(false))
    }

    fn should_reference(opt: bool) -> (shared: bool)
        ensures
            shared,
    {
        true
    }

    fn has_opt() -> (differs: bool)
        ensures
            !differs,
    {
        false
    }

    fn validator_name(opt: bool) -> (name: Name)
        ensures
            exists|param: Name| #[trigger]
                call_ensures(T::validator_name, (false,), param) && name@ == name_with(
                    ""@,
                    "Array28"@,
                    seq![param@],
                ),
    {
        proof {
            reveal_strlit("");
            reveal_strlit("Array28");
        }
        name_of_one("", "Array28", T::validator_name(false))
    }

    /// The array of 28 of what `T` resolves to: the generator changes as
    /// resolving `T` changes it, and an error of that is handed on.
    fn validator(gen: &mut SchemaGenerator, opt: bool) -> (validator: Result<
        ValidatorTree,
        SchemaError,
    >)
        ensures
            generator_wf(final(gen)@),
            match validator {
                Ok(ValidatorTree::Array { contains, items, prefix, rules }) => {
                    &&& contains@.len() == 0
                    &&& prefix@.len() == 0
                    &&& exists|start: fog_pack::validator::ArrayValidator|
                        rules == #[trigger] sized_rules(start, 28)
                    &&& resolved::<T>(old(gen)@, final(gen)@, false, Ok(*items))
                },
                Ok(_) => false,
                Err(_) => resolved::<T>(old(gen)@, final(gen)@, false, validator),
            },
    {
        match gen.type_add::<T>() {
            Ok(inner) => Ok(array_validator_of(inner, 28)),
            Err(e) => Err(e),
        }
    }
}

impl<T: FogValidate> FogValidate for [T; 29] {
    /// The marker tells the descriptor of the parameter too: two shapes of
    /// this kind are the same descriptor only where their parameters are.
    fn origin(opt: bool) -> (marker: String)
        ensures
            exists|inner: String| #[trigger]
                call_ensures(T::origin, (false,), inner) && marker@ == marker_of(
                    "Array29"@,
                    inner@,
                ),
    {
        marker_with("Array29", T::origin(false))
    }

    fn should_reference(opt: bool) -> (shared: bool)
        ensures
            shared,
    {
        true
    }

    fn has_opt() -> (differs: bool)
        ensures
            !differs,
    {
        false
    }

    fn validator_name(opt: bool) -> (name: Name)
        ensures
            exists|param: Name| #[trigger]
                call_ensures(T::validator_name, (false,), param) && name@ == name_with(
                    ""@,
                    "Array29"@,
                    seq![param@],
                ),
    {
        proof {
            reveal_strlit("");
            reveal_strlit("Array29");
        }
        name_of_one("", "Array29", T::validator_name(false))
    }

    /// The array of 29 of what `T` resolves to: the generator changes as
    /// resolving `T` changes it, and an error of that is handed on.
    fn validator(gen: &mut SchemaGenerator, opt: bool) -> (validator: Result<
        ValidatorTree,
        SchemaError,
    >)
        ensures
            generator_wf(final(gen)@),
            match validator {
                Ok(ValidatorTree::Array { contains, items, prefix, rules }) => {
                    &&& contains@.len() == 0
                    &&& prefix@.len() == 0
                    &&& exists|start: fog_pack::validator::ArrayValidator|
                        rules == #[trigger] sized_rules(start, 29)
                    &&& resolved::<T>(old(gen)@, final(gen)@, false, Ok(*items))
                },
                Ok(_) => false,
                Err(_) => resolved::<T>(old(gen)@, final(gen)@, false, validator),
            },
    {
        match gen.type_add::<T>() {
            Ok(inner) => Ok(array_validator_of(inner, 29)),
            Err(e) => Err(e),
        }
    }
}

impl<T: FogValidate> FogValidate for [T; 30] {
    /// The marker tells the descriptor of the parameter too: two shapes of
    /// this kind are the same descriptor only where their parameters are.
    fn origin(opt: bool) -> (marker: String)
        ensures
            exists|inner: String| #[trigger]
                call_ensures(T::origin, (false,), inner) && marker@ == marker_of(
                    "Array30"@,
                    inner@,
                ),
    {
        marker_with("Array30", T::origin(false))
    }

    fn should_reference(opt: bool) -> (shared: bool)
        ensures
            shared,
    {
        true
    }

    fn has_opt() -> (differs: bool)
        ensures
            !differs,
    {
        false
    }

    fn validator_name(opt: bool) -> (name: Name)
        ensures
            exists|param: Name| #[trigger]
                call_ensures(T::validator_name, (false,), param) && name@ == name_with(
                    ""@,
                    "Array30"@,
                    seq![param@],
                ),
    {
        proof {
            reveal_strlit("");
            reveal_strlit("Array30");
        }
        name_of_one("", "Array30", T::validator_name(false))
    }

    /// The array of 30 of what `T` resolves to: the generator changes as
    /// resolving `T` changes it, and an error of that is handed on.
    fn validator(gen: &mut SchemaGenerator, opt: bool) -> (validator: Result<
        ValidatorTree,
        SchemaError,
    >)
        ensures
            generator_wf(final(gen)@),
            match validator {
                Ok(ValidatorTree::Array { contains, items, prefix, rules }) => {
                    &&& contains@.len() == 0
                    &&& prefix@.len() == 0
                    &&& exists|start: fog_pack::validator::ArrayValidator|
                        rules == #[trigger] sized_rules(start, 30)
                    &&& resolved::<T>(old(gen)@, final(gen)@, false, Ok(*items))
                },
                Ok(_) => false,
                Err(_) => resolved::<T>(old(gen)@, final(gen)@, false, validator),
            },
    {
        match gen.type_add::<T>() {
            Ok(inner) => Ok(array_validator_of(inner, 30)),
            Err(e) => Err(e),
        }
    }
}

impl<T: FogValidate> FogValidate for [T; 31] {
    /// The marker tells the descriptor of the parameter too: two shapes of
    /// this kind are the same descriptor only where their parameters are.
    fn origin(opt: bool) -> (marker: String)
        ensures
            exists|inner: String| #[trigger]
                call_ensures(T::origin, (false,), inner) && marker@ == marker_of(
                    "Array31"@,
                    inner@,
                ),
    {
        marker_with("Array31", T::origin(false))
    }

    fn should_reference(opt: bool) -> (shared: bool)
        ensures
            shared,
    {
        true
    }

    fn has_opt() -> (differs: bool)
        ensures
            !differs,
    {
        false
    }

    fn validator_name(opt: bool) -> (name: Name)
        ensures
            exists|param: Name| #[trigger]
                call_ensures(T::validator_name, (false,), param) && name@ == name_with(
                    ""@,
                    "Array31"@,
                    seq![param@],
                ),
    {
        proof {
            reveal_strlit("");
            reveal_strlit("Array31");
        }
        name_of_one("", "Array31", T::validator_name(false))
    }

    /// The array of 31 of what `T` resolves to: the generator changes as
    /// resolving `T` changes it, and an error of that is handed on.
    fn validator(gen: &mut SchemaGenerator, opt: bool) -> (validator: Result<
        ValidatorTree,
        SchemaError,
    >)
        ensures
            generator_wf(final(gen)@),
            match validator {
                Ok(ValidatorTree::Array { contains, items, prefix, rules }) => {
                    &&& contains@.len() == 0
                    &&& prefix@.len() == 0
                    &&& exists|start: fog_pack::validator::ArrayValidator|
                        rules == #[trigger] sized_rules(start, 31)
                    &&& resolved::<T>(old(gen)@, final(gen)@, false, Ok(*items))
                },
                Ok(_) => false,
                Err(_) => resolved::<T>(old(gen)@, final(gen)@, false, validator),
            },
    {
        match gen.type_add::<T>() {
            Ok(inner) => Ok(array_validator_of(inner, 31)),
            Err(e) => Err(e),
        }
    }
}

impl<T: FogValidate> FogValidate for [T; 32] {
    /// The marker tells the descriptor of the parameter too: two shapes of
    /// this kind are the same descriptor only where their parameters are.
    fn origin(opt: bool) -> (marker: String)
        ensures
            exists|inner: String| #[trigger]
                call_ensures(T::origin, (false,), inner) && marker@ == marker_of(
                    "Array32"@,
                    inner@,
                ),
    {
        marker_with("Array32", T::origin(false))
    }

    fn should_reference(opt: bool) -> (shared: bool)
        ensures
            shared,
    {
        true
    }

    fn has_opt() -> (differs: bool)
        ensures
            !differs,
    {
        false
    }

    fn validator_name(opt: bool) -> (name: Name)
        ensures
            exists|param: Name| #[trigger]
                call_ensures(T::validator_name, (false,), param) && name@ == name_with(
                    ""@,
                    "Array32"@,
                    seq![param@],
                ),
    {
        proof {
            reveal_strlit("");
            reveal_strlit("Array32");
        }
        name_of_one("", "Array32", T::validator_name(false))
    }

    /// The array of 32 of what `T` resolves to: the generator changes as
    /// resolving `T` changes it, and an error of that is handed on.
    fn validator(gen: &mut SchemaGenerator, opt: bool) -> (validator: Result<
        ValidatorTree,
        SchemaError,
    >)
        ensures
            generator_wf(final(gen)@),
            match validator {
                Ok(ValidatorTree::Array { contains, items, prefix, rules }) => {
                    &&& contains@.len() == 0
                    &&& prefix@.len() == 0
                    &&& exists|start: fog_pack::validator::ArrayValidator|
                        rules == #[trigger] sized_rules(start, 32)
                    &&& resolved::<T>(old(gen)@, final(gen)@, false, Ok(*items))
                },
                Ok(_) => false,
                Err(_) => resolved::<T>(old(gen)@, final(gen)@, false, validator),
            },
    {
        match gen.type_add::<T>() {
            Ok(inner) => Ok(array_validator_of(inner, 32)),
            Err(e) => Err(e),
        }
    }
}

} // verus!
