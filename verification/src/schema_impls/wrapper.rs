//! Descriptors of the types that only wrap another: each stands for what
//! it wraps, and answers as that does.

use vstd::prelude::*;
use crate::error::SchemaError;
use crate::generator::{FogValidate, SchemaGenerator};
use crate::name::Name;
use crate::tree::ValidatorTree;

verus! {

impl<'a, T: ?Sized + FogValidate> FogValidate for &'a T {
    fn origin(opt: bool) -> (marker: String)
        ensures
            call_ensures(T::origin, (opt,), marker),
    {
        T::origin(opt)
    }

    fn should_reference(opt: bool) -> (shared: bool)
        ensures
            call_ensures(T::should_reference, (opt,), shared),
    {
        T::should_reference(opt)
    }

    fn has_opt() -> (differs: bool)
        ensures
            call_ensures(T::has_opt, (), differs),
    {
        T::has_opt()
    }

    fn validator_name(opt: bool) -> (name: Name)
        ensures
            call_ensures(T::validator_name, (opt,), name),
    {
        T::validator_name(opt)
    }

    /// The validator that `T` computes, with what that does to the
    /// generator.
    fn validator(gen: &mut SchemaGenerator, opt: bool) -> (validator: Result<
        ValidatorTree,
        SchemaError,
    >)
        ensures
            exists|inner: &mut SchemaGenerator|
                *inner == *old(gen) && *final(inner) == *final(gen) && #[trigger] call_ensures(
                    T::validator,
                    (inner, opt),
                    validator,
                ),
    {
        T::validator(gen, opt)
    }
}

impl<'a, T: ?Sized + FogValidate> FogValidate for &'a mut T {
    fn origin(opt: bool) -> (marker: String)
        ensures
            call_ensures(T::origin, (opt,), marker),
    {
        T::origin(opt)
    }

    fn should_reference(opt: bool) -> (shared: bool)
        ensures
            call_ensures(T::should_reference, (opt,), shared),
    {
        T::should_reference(opt)
    }

    fn has_opt() -> (differs: bool)
        ensures
            call_ensures(T::has_opt, (), differs),
    {
        T::has_opt()
    }

    fn validator_name(opt: bool) -> (name: Name)
        ensures
            call_ensures(T::validator_name, (opt,), name),
    {
        T::validator_name(opt)
    }

    /// The validator that `T` computes, with what that does to the
    /// generator.
    fn validator(gen: &mut SchemaGenerator, opt: bool) -> (validator: Result<
        ValidatorTree,
        SchemaError,
    >)
        ensures
            exists|inner: &mut SchemaGenerator|
                *inner == *old(gen) && *final(inner) == *final(gen) && #[trigger] call_ensures(
                    T::validator,
                    (inner, opt),
                    validator,
                ),
    {
        T::validator(gen, opt)
    }
}

impl<T: ?Sized + FogValidate> FogValidate for Box<T> {
    fn origin(opt: bool) -> (marker: String)
        ensures
            call_ensures(T::origin, (opt,), marker),
    {
        T::origin(opt)
    }

    fn should_reference(opt: bool) -> (shared: bool)
        ensures
            call_ensures(T::should_reference, (opt,), shared),
    {
        T::should_reference(opt)
    }

    fn has_opt() -> (differs: bool)
        ensures
            call_ensures(T::has_opt, (), differs),
    {
        T::has_opt()
    }

    fn validator_name(opt: bool) -> (name: Name)
        ensures
            call_ensures(T::validator_name, (opt,), name),
    {
        T::validator_name(opt)
    }

    /// The validator that `T` computes, with what that does to the
    /// generator.
    fn validator(gen: &mut SchemaGenerator, opt: bool) -> (validator: Result<
        ValidatorTree,
        SchemaError,
    >)
        ensures
            exists|inner: &mut SchemaGenerator|
                *inner == *old(gen) && *final(inner) == *final(gen) && #[trigger] call_ensures(
                    T::validator,
                    (inner, opt),
                    validator,
                ),
    {
        T::validator(gen, opt)
    }
}

impl<T: ?Sized + FogValidate> FogValidate for std::rc::Rc<T> {
    fn origin(opt: bool) -> (marker: String)
        ensures
            call_ensures(T::origin, (opt,), marker),
    {
        T::origin(opt)
    }

    fn should_reference(opt: bool) -> (shared: bool)
        ensures
            call_ensures(T::should_reference, (opt,), shared),
    {
        T::should_reference(opt)
    }

    fn has_opt() -> (differs: bool)
        ensures
            call_ensures(T::has_opt, (), differs),
    {
        T::has_opt()
    }

    fn validator_name(opt: bool) -> (name: Name)
        ensures
            call_ensures(T::validator_name, (opt,), name),
    {
        T::validator_name(opt)
    }

    /// The validator that `T` computes, with what that does to the
    /// generator.
    fn validator(gen: &mut SchemaGenerator, opt: bool) -> (validator: Result<
        ValidatorTree,
        SchemaError,
    >)
        ensures
            exists|inner: &mut SchemaGenerator|
                *inner == *old(gen) && *final(inner) == *final(gen) && #[trigger] call_ensures(
                    T::validator,
                    (inner, opt),
                    validator,
                ),
    {
        T::validator(gen, opt)
    }
}

impl<T: ?Sized + FogValidate> FogValidate for std::sync::Arc<T> {
    fn origin(opt: bool) -> (marker: String)
        ensures
            call_ensures(T::origin, (opt,), marker),
    {
        T::origin(opt)
    }

    fn should_reference(opt: bool) -> (shared: bool)
        ensures
            call_ensures(T::should_reference, (opt,), shared),
    {
        T::should_reference(opt)
    }

    fn has_opt() -> (differs: bool)
        ensures
            call_ensures(T::has_opt, (), differs),
    {
        T::has_opt()
    }

    fn validator_name(opt: bool) -> (name: Name)
        ensures
            call_ensures(T::validator_name, (opt,), name),
    {
        T::validator_name(opt)
    }

    /// The validator that `T` computes, with what that does to the
    /// generator.
    fn validator(gen: &mut SchemaGenerator, opt: bool) -> (validator: Result<
        ValidatorTree,
        SchemaError,
    >)
        ensures
            exists|inner: &mut SchemaGenerator|
                *inner == *old(gen) && *final(inner) == *final(gen) && #[trigger] call_ensures(
                    T::validator,
                    (inner, opt),
                    validator,
                ),
    {
        T::validator(gen, opt)
    }
}

impl<T: ?Sized + FogValidate> FogValidate for std::sync::Mutex<T> {
    fn origin(opt: bool) -> (marker: String)
        ensures
            call_ensures(T::origin, (opt,), marker),
    {
        T::origin(opt)
    }

    fn should_reference(opt: bool) -> (shared: bool)
        ensures
            call_ensures(T::should_reference, (opt,), shared),
    {
        T::should_reference(opt)
    }

    fn has_opt() -> (differs: bool)
        ensures
            call_ensures(T::has_opt, (), differs),
    {
        T::has_opt()
    }

    fn validator_name(opt: bool) -> (name: Name)
        ensures
            call_ensures(T::validator_name, (opt,), name),
    {
        T::validator_name(opt)
    }

    /// The validator that `T` computes, with what that does to the
    /// generator.
    fn validator(gen: &mut SchemaGenerator, opt: bool) -> (validator: Result<
        ValidatorTree,
        SchemaError,
    >)
        ensures
            exists|inner: &mut SchemaGenerator|
                *inner == *old(gen) && *final(inner) == *final(gen) && #[trigger] call_ensures(
                    T::validator,
                    (inner, opt),
                    validator,
                ),
    {
        T::validator(gen, opt)
    }
}

impl<T: ?Sized + FogValidate> FogValidate for std::sync::RwLock<T> {
    fn origin(opt: bool) -> (marker: String)
        ensures
            call_ensures(T::origin, (opt,), marker),
    {
        T::origin(opt)
    }

    fn should_reference(opt: bool) -> (shared: bool)
        ensures
            call_ensures(T::should_reference, (opt,), shared),
    {
        T::should_reference(opt)
    }

    fn has_opt() -> (differs: bool)
        ensures
            call_ensures(T::has_opt, (), differs),
    {
        T::has_opt()
    }

    fn validator_name(opt: bool) -> (name: Name)
        ensures
            call_ensures(T::validator_name, (opt,), name),
    {
        T::validator_name(opt)
    }

    /// The validator that `T` computes, with what that does to the
    /// generator.
    fn validator(gen: &mut SchemaGenerator, opt: bool) -> (validator: Result<
        ValidatorTree,
        SchemaError,
    >)
        ensures
            exists|inner: &mut SchemaGenerator|
                *inner == *old(gen) && *final(inner) == *final(gen) && #[trigger] call_ensures(
                    T::validator,
                    (inner, opt),
                    validator,
                ),
    {
        T::validator(gen, opt)
    }
}

impl<T: ?Sized + FogValidate> FogValidate for std::cell::Cell<T> {
    fn origin(opt: bool) -> (marker: String)
        ensures
            call_ensures(T::origin, (opt,), marker),
    {
        T::origin(opt)
    }

    fn should_reference(opt: bool) -> (shared: bool)
        ensures
            call_ensures(T::should_reference, (opt,), shared),
    {
        T::should_reference(opt)
    }

    fn has_opt() -> (differs: bool)
        ensures
            call_ensures(T::has_opt, (), differs),
    {
        T::has_opt()
    }

    fn validator_name(opt: bool) -> (name: Name)
        ensures
            call_ensures(T::validator_name, (opt,), name),
    {
        T::validator_name(opt)
    }

    /// The validator that `T` computes, with what that does to the
    /// generator.
    fn validator(gen: &mut SchemaGenerator, opt: bool) -> (validator: Result<
        ValidatorTree,
        SchemaError,
    >)
        ensures
            exists|inner: &mut SchemaGenerator|
                *inner == *old(gen) && *final(inner) == *final(gen) && #[trigger] call_ensures(
                    T::validator,
                    (inner, opt),
                    validator,
                ),
    {
        T::validator(gen, opt)
    }
}

impl<T: ?Sized + FogValidate> FogValidate for std::cell::RefCell<T> {
    fn origin(opt: bool) -> (marker: String)
        ensures
            call_ensures(T::origin, (opt,), marker),
    {
        T::origin(opt)
    }

    fn should_reference(opt: bool) -> (shared: bool)
        ensures
            call_ensures(T::should_reference, (opt,), shared),
    {
        T::should_reference(opt)
    }

    fn has_opt() -> (differs: bool)
        ensures
            call_ensures(T::has_opt, (), differs),
    {
        T::has_opt()
    }

    fn validator_name(opt: bool) -> (name: Name)
        ensures
            call_ensures(T::validator_name, (opt,), name),
    {
        T::validator_name(opt)
    }

    /// The validator that `T` computes, with what that does to the
    /// generator.
    fn validator(gen: &mut SchemaGenerator, opt: bool) -> (validator: Result<
        ValidatorTree,
        SchemaError,
    >)
        ensures
            exists|inner: &mut SchemaGenerator|
                *inner == *old(gen) && *final(inner) == *final(gen) && #[trigger] call_ensures(
                    T::validator,
                    (inner, opt),
                    validator,
                ),
    {
        T::validator(gen, opt)
    }
}

impl<'a, T: ?Sized + ToOwned + FogValidate> FogValidate for std::borrow::Cow<'a, T> {
    fn origin(opt: bool) -> (marker: String)
        ensures
            call_ensures(T::origin, (opt,), marker),
    {
        T::origin(opt)
    }

    fn should_reference(opt: bool) -> (shared: bool)
        ensures
            call_ensures(T::should_reference, (opt,), shared),
    {
        T::should_reference(opt)
    }

    fn has_opt() -> (differs: bool)
        ensures
            call_ensures(T::has_opt, (), differs),
    {
        T::has_opt()
    }

    fn validator_name(opt: bool) -> (name: Name)
        ensures
            call_ensures(T::validator_name, (opt,), name),
    {
        T::validator_name(opt)
    }

    /// The validator that `T` computes, with what that does to the
    /// generator.
    fn validator(gen: &mut SchemaGenerator, opt: bool) -> (validator: Result<
        ValidatorTree,
        SchemaError,
    >)
        ensures
            exists|inner: &mut SchemaGenerator|
                *inner == *old(gen) && *final(inner) == *final(gen) && #[trigger] call_ensures(
                    T::validator,
                    (inner, opt),
                    validator,
                ),
    {
        T::validator(gen, opt)
    }
}

impl<T: FogValidate> FogValidate for std::num::Wrapping<T> {
    fn origin(opt: bool) -> (marker: String)
        ensures
            call_ensures(T::origin, (opt,), marker),
    {
        T::origin(opt)
    }

    fn should_reference(opt: bool) -> (shared: bool)
        ensures
            call_ensures(T::should_reference, (opt,), shared),
    {
        T::should_reference(opt)
    }

    fn has_opt() -> (differs: bool)
        ensures
            call_ensures(T::has_opt, (), differs),
    {
        T::has_opt()
    }

    fn validator_name(opt: bool) -> (name: Name)
        ensures
            call_ensures(T::validator_name, (opt,), name),
    {
        T::validator_name(opt)
    }

    /// The validator that `T` computes, with what that does to the
    /// generator.
    fn validator(gen: &mut SchemaGenerator, opt: bool) -> (validator: Result<
        ValidatorTree,
        SchemaError,
    >)
        ensures
            exists|inner: &mut SchemaGenerator|
                *inner == *old(gen) && *final(inner) == *final(gen) && #[trigger] call_ensures(
                    T::validator,
                    (inner, opt),
                    validator,
                ),
    {
        T::validator(gen, opt)
    }
}

} // verus!
