//! The descriptor of a value that is ordered the other way round: it stands
//! for the value.

use vstd::prelude::*;
use crate::error::SchemaError;
use crate::generator::{FogValidate, SchemaGenerator};
use crate::name::Name;
use crate::tree::ValidatorTree;

verus! {

/// std's `cmp::Reverse`.
#[verifier::external_type_specification]
#[verifier::external_body]
#[verifier::reject_recursive_types(T)]
pub struct ExReverse<T>(std::cmp::Reverse<T>);

impl<T: FogValidate> FogValidate for std::cmp::Reverse<T> {
    fn origin(opt: bool) -> (marker: String)
        ensures
            call_ensures(T::origin, (opt,), marker),
    {
        T::origin(opt)
    }

    fn should_reference(opt: bool) -> (shared: bool)
        ensures
            call_ensures(T::should_reference, (opt,), shared),
    {
        T::should_reference(opt)
    }

    fn has_opt() -> (differs: bool)
        ensures
            call_ensures(T::has_opt, (), differs),
    {
        T::has_opt()
    }

    fn validator_name(opt: bool) -> (name: Name)
        ensures
            call_ensures(T::validator_name, (opt,), name),
    {
        T::validator_name(opt)
    }

    /// The validator that `T` computes, with what that does to the
    /// generator.
    fn validator(gen: &mut SchemaGenerator, opt: bool) -> (validator: Result<
        ValidatorTree,
        SchemaError,
    >)
        ensures
            exists|inner: &mut SchemaGenerator|
                *inner == *old(gen) && *final(inner) == *final(gen) && #[trigger] call_ensures(
                    T::validator,
                    (inner, opt),
                    validator,
                ),
    {
        T::validator(gen, opt)
    }
}

} // verus!
