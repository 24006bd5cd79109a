//! Descriptors of maps from strings. They are not shared: the validator of
//! the values is.

use vstd::prelude::*;
use vstd::string::StringExecFns;
use crate::error::SchemaError;
use crate::fog::{map_new, map_nin_add, map_nin_added};
use crate::generator::{generator_wf, resolved, FogValidate, SchemaGenerator};
use crate::name::{name_with, Name};
use crate::schema_impls::basics::name_of_one;
use crate::tree::ValidatorTree;

verus! {

/// The rules of a map, as fog-pack makes them of the rules `start`: the
/// map without fields is banned where `opt` is set.
pub open spec fn map_rules(
    start: fog_pack::validator::MapValidator,
    opt: bool,
) -> fog_pack::validator::MapValidator {
    if opt {
        map_nin_added(start, Seq::empty())
    } else {
        start
    }
}

/// The validator of the maps whose values pass `values`; without the empty
/// map where `opt` is set. Its rules are what fog-pack makes of the rules
/// that allow every map, as `map_rules` says.
pub fn map_validator_of(values: ValidatorTree, opt: bool) -> (validator: ValidatorTree)
    ensures
        validator matches ValidatorTree::Mapping { req, opt: optional, values: held, rules }
            && req@.len() == 0 && optional@.len() == 0 && held == Some(Box::new(values))
            && exists|start: fog_pack::validator::MapValidator|
            rules == #[trigger] map_rules(start, opt),
{
    let start = map_new();
    let ghost begun = start;
    let rules = if opt {
        let banned: Vec<(String, fog_pack::types::Value)> = Vec::new();
        assert(banned@ =~= Seq::empty());
        map_nin_add(start, banned)
    } else {
        start
    };
    assert(rules == map_rules(begun, opt));
    ValidatorTree::Mapping {
        req: Vec::new(),
        opt: Vec::new(),
        values: Some(Box::new(values)),
        rules,
    }
}

impl<V: FogValidate> FogValidate for std::collections::BTreeMap<String, V> {
    fn origin(opt: bool) -> (marker: String)
        ensures
            marker@ == "Map"@,
    {
        String::from_str("Map")
    }

    fn should_reference(opt: bool) -> (shared: bool)
        ensures
            !shared,
    {
        false
    }

    fn has_opt() -> (differs: bool)
        ensures
            differs,
    {
        true
    }

    fn validator_name(opt: bool) -> (name: Name)
        ensures
            exists|param: Name| #[trigger]
                call_ensures(V::validator_name, (false,), param) && name@ == name_with(
                    ""@,
                    if opt {
                        "NonEmptyMap"@
                    } else {
                        "Map"@
                    },
                    seq![param@],
                ),
    {
        proof {
            reveal_strlit("");
            reveal_strlit("NonEmptyMap");
            reveal_strlit("Map");
        }
        name_of_one(
            "",
            if opt {
                "NonEmptyMap"
            } else {
                "Map"
            },
            V::validator_name(false),
        )
    }

    /// The map to what `V` resolves to: the generator changes as
    /// resolving `V` changes it, and an error of that is handed on.
    fn validator(gen: &mut SchemaGenerator, opt: bool) -> (validator: Result<
        ValidatorTree,
        SchemaError,
    >)
        ensures
            generator_wf(final(gen)@),
            match validator {
                Ok(ValidatorTree::Mapping { req, opt: optional, values, rules }) => {
                    &&& req@.len() == 0
                    &&& optional@.len() == 0
                    &&& exists|start: fog_pack::validator::MapValidator|
                        rules == #[trigger] map_rules(start, opt)
                    &&& values matches Some(held)
                    &&& resolved::<V>(old(gen)@, final(gen)@, false, Ok(*held))
                },
                Ok(_) => false,
                Err(_) => resolved::<V>(old(gen)@, final(gen)@, false, validator),
            },
    {
        match gen.type_add::<V>() {
            Ok(inner) => Ok(map_validator_of(inner, opt)),
            Err(e) => Err(e),
        }
    }
}

impl<V: FogValidate, H> FogValidate for std::collections::HashMap<String, V, H> {
    fn origin(opt: bool) -> (marker: String)
        ensures
            marker@ == "Map"@,
    {
        String::from_str("Map")
    }

    fn should_reference(opt: bool) -> (shared: bool)
        ensures
            !shared,
    {
        false
    }

    fn has_opt() -> (differs: bool)
        ensures
            differs,
    {
        true
    }

    fn validator_name(opt: bool) -> (name: Name)
        ensures
            exists|param: Name| #[trigger]
                call_ensures(V::validator_name, (false,), param) && name@ == name_with(
                    ""@,
                    if opt {
                        "NonEmptyMap"@
                    } else {
                        "Map"@
                    },
                    seq![param@],
                ),
    {
        proof {
            reveal_strlit("");
            reveal_strlit("NonEmptyMap");
            reveal_strlit("Map");
        }
        name_of_one(
            "",
            if opt {
                "NonEmptyMap"
            } else {
                "Map"
            },
            V::validator_name(false),
        )
    }

    /// The map to what `V` resolves to: the generator changes as
    /// resolving `V` changes it, and an error of that is handed on.
    fn validator(gen: &mut SchemaGenerator, opt: bool) -> (validator: Result<
        ValidatorTree,
        SchemaError,
    >)
        ensures
            generator_wf(final(gen)@),
            match validator {
                Ok(ValidatorTree::Mapping { req, opt: optional, values, rules }) => {
                    &&& req@.len() == 0
                    &&& optional@.len() == 0
                    &&& exists|start: fog_pack::validator::MapValidator|
                        rules == #[trigger] map_rules(start, opt)
                    &&& values matches Some(held)
                    &&& resolved::<V>(old(gen)@, final(gen)@, false, Ok(*held))
                },
                Ok(_) => false,
                Err(_) => resolved::<V>(old(gen)@, final(gen)@, false, validator),
            },
    {
        match gen.type_add::<V>() {
            Ok(inner) => Ok(map_validator_of(inner, opt)),
            Err(e) => Err(e),
        }
    }
}

} // verus!
