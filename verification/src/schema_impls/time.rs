//! Descriptors of durations and of points in time.

use vstd::prelude::*;
use vstd::string::StringExecFns;
use crate::error::SchemaError;
use crate::fog::{
    map_new, map_nin_add, map_nin_added, value_from_u32, value_from_u64, value_of_u32,
    value_of_u64,
};
use crate::generator::{FogValidate, SchemaGenerator};
use crate::name::{plain_name, Name};
use crate::schema_impls::basics::record;
use crate::schema_impls::primitives::{unsigned_leaf, unsigned_validator};
use crate::tree::ValidatorTree;

verus! {

/// Whether `validator` is the map of a time span: the whole seconds under
/// `secs`, any unsigned integer of 64 bits, and the nanoseconds past them
/// under `nanos`, at most 999,999,999; no other field. Where `opt` is set,
/// its rules are what fog-pack makes by banning the map of zero and zero.
pub open spec fn seconds_and_nanos_map(
    validator: ValidatorTree,
    secs: Seq<char>,
    nanos: Seq<char>,
    opt: bool,
) -> bool {
    &&& validator matches ValidatorTree::Mapping { req, opt: optional, values, rules }
    &&& req@.len() == 2
    &&& req@[0].0@ == secs
    &&& req@[0].1 matches ValidatorTree::Leaf(whole)
    &&& exists|start: fog_pack::validator::IntValidator|
        whole == #[trigger] unsigned_leaf(start, u64::MAX as int, false)
    &&& req@[1].0@ == nanos
    &&& req@[1].1 matches ValidatorTree::Leaf(part)
    &&& exists|start: fog_pack::validator::IntValidator|
        part == #[trigger] unsigned_leaf(start, 999_999_999, false)
    &&& optional@.len() == 0
    &&& values is None
    &&& opt ==> exists|
        begun: fog_pack::validator::MapValidator,
        banned: Seq<(String, fog_pack::types::Value)>,
    |
        {
            &&& rules == #[trigger] map_nin_added(begun, banned)
            &&& banned.len() == 2
            &&& banned[0].0@ == secs
            &&& banned[0].1 == value_of_u64(0)
            &&& banned[1].0@ == nanos
            &&& banned[1].1 == value_of_u32(0)
        }
}

/// The validator of a map of whole seconds under `secs` and of the
/// nanoseconds past them under `nanos`; without the map of zero and zero
/// where `opt` is set.
pub fn seconds_and_nanos(secs: &str, nanos: &str, opt: bool) -> (validator: ValidatorTree)
    ensures
        seconds_and_nanos_map(validator, secs@, nanos@, opt),
{
    let mut rules = map_new();
    if opt {
        let mut banned: Vec<(String, fog_pack::types::Value)> = Vec::new();
        banned.push((String::from_str(secs), value_from_u64(0u64)));
        banned.push((String::from_str(nanos), value_from_u32(0u32)));
        rules = map_nin_add(rules, banned);
    }
    let mut fields: Vec<(String, ValidatorTree)> = Vec::new();
    fields.push((String::from_str(secs), unsigned_validator(u64::MAX, false)));
    fields.push((String::from_str(nanos), unsigned_validator(999_999_999, false)));
    record(fields, rules)
}

impl FogValidate for std::time::Duration {
    fn origin(opt: bool) -> (marker: String)
        ensures
            marker@ == "std::time::Duration"@,
    {
        String::from_str("std::time::Duration")
    }

    fn should_reference(opt: bool) -> (shared: bool)
        ensures
            shared,
    {
        true
    }

    fn has_opt() -> (differs: bool)
        ensures
            differs,
    {
        true
    }

    fn validator_name(opt: bool) -> (name: Name)
        ensures
            name@ == plain_name(
                "std::time"@,
                if opt {
                    "OptDuration"@
                } else {
                    "Duration"@
                },
            ),
    {
        proof {
            reveal_strlit("std::time");
            reveal_strlit("OptDuration");
            reveal_strlit("Duration");
        }
        Name::new(
            "std::time",
            if opt {
                "OptDuration"
            } else {
                "Duration"
            },
        )
    }

    /// The map of `secs` and `nanos`, as `seconds_and_nanos_map` says; without
    /// the empty duration where `opt` is set.
    fn validator(gen: &mut SchemaGenerator, opt: bool) -> (validator: Result<
        ValidatorTree,
        SchemaError,
    >)
        ensures
            *final(gen) == *old(gen),
            validator matches Ok(tree) && seconds_and_nanos_map(
                tree,
                "secs"@,
                "nanos"@,
                opt,
            ),
    {
        Ok(seconds_and_nanos("secs", "nanos", opt))
    }
}

/// A point in time is stored as the duration since the epoch, and goes by
/// the name of a duration. It is no fog-pack timestamp.
impl FogValidate for std::time::SystemTime {
    fn origin(opt: bool) -> (marker: String)
        ensures
            marker@ == "std::time::SystemTime"@,
    {
        String::from_str("std::time::SystemTime")
    }

    fn should_reference(opt: bool) -> (shared: bool)
        ensures
            shared,
    {
        true
    }

    fn has_opt() -> (differs: bool)
        ensures
            differs,
    {
        true
    }

    fn validator_name(opt: bool) -> (name: Name)
        ensures
            name@ == plain_name(
                "std::time"@,
                if opt {
                    "OptDuration"@
                } else {
                    "Duration"@
                },
            ),
    {
        proof {
            reveal_strlit("std::time");
            reveal_strlit("OptDuration");
            reveal_strlit("Duration");
        }
        Name::new(
            "std::time",
            if opt {
                "OptDuration"
            } else {
                "Duration"
            },
        )
    }

    /// The map of `secs_since_epoch` and `nanos_since_epoch`, as
    /// `seconds_and_nanos_map` says; without the epoch itself where `opt` is
    /// set.
    fn validator(gen: &mut SchemaGenerator, opt: bool) -> (validator: Result<
        ValidatorTree,
        SchemaError,
    >)
        ensures
            *final(gen) == *old(gen),
            validator matches Ok(tree) && seconds_and_nanos_map(
                tree,
                "secs_since_epoch"@,
                "nanos_since_epoch"@,
                opt,
            ),
    {
        Ok(seconds_and_nanos("secs_since_epoch", "nanos_since_epoch", opt))
    }
}

} // verus!
