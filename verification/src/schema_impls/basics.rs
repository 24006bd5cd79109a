//! Descriptors of the unit type, of optional and fallible values, and of
//! ranges.

use vstd::prelude::*;
use vstd::string::StringExecFns;
use crate::error::SchemaError;
use crate::fog::{
    bool_build, bool_new, bool_nin_add, map_new, map_nin_add, map_nin_added, value_from,
};
use crate::generator::{generator_wf, resolved, FogValidate, GeneratorView, SchemaGenerator};
use crate::name::{label_ok, name_views, name_with, path_ok, plain_name, Name};
use crate::tree::ValidatorTree;

verus! {

/// The marker of a descriptor with one parameter: the marker `outer` of
/// the kind, and between `<` and `>` the marker `inner` of the parameter's
/// descriptor.
pub open spec fn marker_of(outer: Seq<char>, inner: Seq<char>) -> Seq<char> {
    outer + seq!['<'] + inner + seq!['>']
}

/// The marker of a descriptor with two parameters: the marker `outer` of
/// the kind, and between `<` and `>` the markers of the parameters'
/// descriptors with a comma between them.
pub open spec fn marker_of_two(outer: Seq<char>, first: Seq<char>, second: Seq<char>) -> Seq<
    char,
> {
    outer + seq!['<'] + first + seq![','] + second + seq!['>']
}

/// Two descriptors of one kind with one parameter have the same marker
/// only where their parameters have.
pub proof fn lemma_marker_tells_parameter(outer: Seq<char>, one: Seq<char>, other: Seq<char>)
    requires
        marker_of(outer, one) == marker_of(outer, other),
    ensures
        one == other,
{
    let a = marker_of(outer, one);
    let b = marker_of(outer, other);
    assert(a.len() == outer.len() + one.len() + 2);
    assert(b.len() == outer.len() + other.len() + 2);
    assert forall|i: int| 0 <= i < one.len() implies one[i] == other[i] by {
        assert(a[outer.len() + 1 + i] == one[i]);
        assert(b[outer.len() + 1 + i] == other[i]);
    }
    assert(one =~= other);
}

/// The marker of a descriptor of the kind `outer` whose parameter has the
/// marker `inner`.
pub fn marker_with(outer: &str, inner: String) -> (marker: String)
    ensures
        marker@ == marker_of(outer@, inner@),
{
    proof {
        reveal_strlit("<");
        reveal_strlit(">");
    }
    let mut marker: String = String::from_str(outer);
    marker.append("<");
    marker.append(inner.as_str());
    marker.append(">");
    assert(marker@ =~= marker_of(outer@, inner@));
    marker
}

/// The marker of a descriptor of the kind `outer` whose parameters have
/// the markers `first` and `second`.
pub fn marker_with_two(outer: &str, first: String, second: String) -> (marker: String)
    ensures
        marker@ == marker_of_two(outer@, first@, second@),
{
    proof {
        reveal_strlit("<");
        reveal_strlit(",");
        reveal_strlit(">");
    }
    let mut marker: String = String::from_str(outer);
    marker.append("<");
    marker.append(first.as_str());
    marker.append(",");
    marker.append(second.as_str());
    marker.append(">");
    assert(marker@ =~= marker_of_two(outer@, first@, second@));
    marker
}

/// A name with one type parameter.
pub fn name_of_one(path: &'static str, label: &'static str, param: Name) -> (name: Name)
    requires
        path_ok(path@),
        label_ok(label@),
    ensures
        name@ == name_with(path@, label@, seq![param@]),
{
    let mut params: Vec<Name> = Vec::new();
    params.push(param);
    assert(name_views(params@) =~= seq![param@]);
    Name::with_types(path, label, params)
}

/// A name with two type parameters.
pub fn name_of_two(path: &'static str, label: &'static str, first: Name, second: Name) -> (name:
    Name)
    requires
        path_ok(path@),
        label_ok(label@),
    ensures
        name@ == name_with(path@, label@, seq![first@, second@]),
{
    let mut params: Vec<Name> = Vec::new();
    params.push(first);
    params.push(second);
    assert(name_views(params@) =~= seq![first@, second@]);
    Name::with_types(path, label, params)
}

/// A map validator with the required fields `fields` and the constraints
/// `rules`.
pub fn record(
    fields: Vec<(String, ValidatorTree)>,
    rules: fog_pack::validator::MapValidator,
) -> (validator: ValidatorTree)
    ensures
        validator matches ValidatorTree::Mapping { req, opt, values, rules: held } && req
            == fields && opt@.len() == 0 && values is None && held == rules,
{
    ValidatorTree::Mapping { req: fields, opt: Vec::new(), values: None, rules }
}

/// The validator of an optional value whose own validator is `inner`: null
/// or `inner`. It fails where `inner` is the null validator itself, for
/// then the absent value and the present one could not be told apart;
/// `origin` is the marker of the descriptor that gave `inner`.
pub fn optional_of(inner: ValidatorTree, origin: &str) -> (validator: Result<
    ValidatorTree,
    SchemaError,
>)
    ensures
        match validator {
            Ok(ValidatorTree::Multi(list)) => !(inner is Null) && list@.len() == 2 && list@[0]
                is Null && list@[1] == inner,
            Ok(_) => false,
            Err(SchemaError::ImpossibleOptional { origin: named }) => inner is Null && named@
                == origin@,
            Err(_) => false,
        },
{
    match inner {
        ValidatorTree::Null => Err(
            SchemaError::ImpossibleOptional { origin: String::from_str(origin) },
        ),
        _ => {
            let mut list: Vec<ValidatorTree> = Vec::new();
            list.push(ValidatorTree::Null);
            list.push(inner);
            Ok(ValidatorTree::Multi(list))
        },
    }
}

impl FogValidate for () {
    fn origin(opt: bool) -> (marker: String)
        ensures
            marker@ == "unit"@,
    {
        String::from_str("unit")
    }

    fn should_reference(opt: bool) -> (shared: bool)
        ensures
            !shared,
    {
        false
    }

    fn has_opt() -> (differs: bool)
        ensures
            differs,
    {
        true
    }

    fn validator_name(opt: bool) -> (name: Name)
        ensures
            name@ == plain_name(
                ""@,
                if opt {
                    "!"@
                } else {
                    "unit"@
                },
            ),
    {
        proof {
            reveal_strlit("");
            reveal_strlit("!");
            reveal_strlit("unit");
        }
        Name::new(
            "",
            if opt {
                "!"
            } else {
                "unit"
            },
        )
    }

    /// The null value. Where `opt` is set, nothing passes: the unit is its
    /// own default and is then always left out.
    fn validator(gen: &mut SchemaGenerator, opt: bool) -> (validator: Result<
        ValidatorTree,
        SchemaError,
    >)
        ensures
            *final(gen) == *old(gen),
            validator matches Ok(tree) && if opt {
                tree is Leaf
            } else {
                tree is Null
            },
    {
        if opt {
            Ok(ValidatorTree::Leaf(bool_build(bool_nin_add(bool_nin_add(bool_new(), false), true))))
        } else {
            Ok(ValidatorTree::Null)
        }
    }
}

impl<T: ?Sized> FogValidate for std::marker::PhantomData<T> {
    fn origin(opt: bool) -> (marker: String)
        ensures
            call_ensures(<() as FogValidate>::origin, (opt,), marker),
    {
        <() as FogValidate>::origin(opt)
    }

    fn should_reference(opt: bool) -> (shared: bool)
        ensures
            call_ensures(<() as FogValidate>::should_reference, (opt,), shared),
    {
        <() as FogValidate>::should_reference(opt)
    }

    fn has_opt() -> (differs: bool)
        ensures
            call_ensures(<() as FogValidate>::has_opt, (), differs),
    {
        <() as FogValidate>::has_opt()
    }

    fn validator_name(opt: bool) -> (name: Name)
        ensures
            call_ensures(<() as FogValidate>::validator_name, (opt,), name),
    {
        <() as FogValidate>::validator_name(opt)
    }

    /// The validator that the other descriptor computes, with what that
    /// does to the generator.
    fn validator(gen: &mut SchemaGenerator, opt: bool) -> (validator: Result<
        ValidatorTree,
        SchemaError,
    >)
        ensures
            exists|inner: &mut SchemaGenerator|
                *inner == *old(gen) && *final(inner) == *final(gen) && #[trigger] call_ensures(
                    <() as FogValidate>::validator,
                    (inner, opt),
                    validator,
                ),
    {
        <() as FogValidate>::validator(gen, opt)
    }
}

impl<T: FogValidate> FogValidate for Option<T> {
    /// Where `opt` is set, `None` is left out, and what is left is the
    /// shape `T` itself.
    fn origin(opt: bool) -> (marker: String)
        ensures
            exists|inner: String| #[trigger]
                call_ensures(T::origin, (false,), inner) && marker@ == if opt {
                    inner@
                } else {
                    marker_of("std::option::Option"@, inner@)
                },
    {
        let inner: String = T::origin(false);
        if opt {
            inner
        } else {
            marker_with("std::option::Option", inner)
        }
    }

    /// Where `opt` is set, the validator is whatever `T` resolves to, and
    /// has no entry of its own.
    fn should_reference(opt: bool) -> (shared: bool)
        ensures
            shared == !opt,
    {
        !opt
    }

    fn has_opt() -> (differs: bool)
        ensures
            differs,
    {
        true
    }

    fn validator_name(opt: bool) -> (name: Name)
        ensures
            exists|param: Name| #[trigger]
                call_ensures(T::validator_name, (false,), param) && name@ == if opt {
                    param@
                } else {
                    name_with("std::option"@, "Option"@, seq![param@])
                },
    {
        let param: Name = T::validator_name(false);
        if opt {
            param
        } else {
            proof {
                reveal_strlit("std::option");
                reveal_strlit("Option");
            }
            name_of_one("std::option", "Option", param)
        }
    }

    /// What `T` resolves to where `opt` is set, and else null or that, as
    /// `optional_of` says. The generator changes as resolving `T` changes
    /// it, and an error of that is handed on.
    fn validator(gen: &mut SchemaGenerator, opt: bool) -> (validator: Result<
        ValidatorTree,
        SchemaError,
    >)
        ensures
            generator_wf(final(gen)@),
            exists|item: Result<ValidatorTree, SchemaError>|
                {
                    &&& #[trigger] resolved::<T>(old(gen)@, final(gen)@, false, item)
                    &&& match item {
                        Ok(held) => if opt {
                            validator == item
                        } else if held is Null {
                            &&& validator matches Err(
                                SchemaError::ImpossibleOptional { origin: refused },
                            )
                            &&& exists|marker: String| #[trigger]
                                call_ensures(T::origin, (false,), marker) && refused@ == marker@
                        } else {
                            &&& validator matches Ok(ValidatorTree::Multi(list))
                            &&& list@.len() == 2
                            &&& list@[0] is Null
                            &&& list@[1] == held
                        },
                        Err(_) => validator == item,
                    }
                },
    {
        match gen.type_add::<T>() {
            Ok(inner) => {
                if opt {
                    Ok(inner)
                } else {
                    optional_of(inner, T::origin(false).as_str())
                }
            },
            Err(e) => Err(e),
        }
    }
}

impl<T: FogValidate, E: FogValidate> FogValidate for Result<T, E> {
    /// The marker tells the descriptors of the parameters too: two shapes
    /// of this kind are the same descriptor only where their parameters
    /// are.
    fn origin(opt: bool) -> (marker: String)
        ensures
            exists|first: String, second: String|
                #![trigger
                    call_ensures(T::origin, (false,), first),
                    call_ensures(E::origin, (false,), second)]
                call_ensures(T::origin, (false,), first) && call_ensures(
                    E::origin,
                    (false,),
                    second,
                ) && marker@ == marker_of_two("std::result::Result"@, first@, second@),
    {
        marker_with_two("std::result::Result", T::origin(false), E::origin(false))
    }

    fn should_reference(opt: bool) -> (shared: bool)
        ensures
            shared,
    {
        true
    }

    fn has_opt() -> (differs: bool)
        ensures
            !differs,
    {
        false
    }

    fn validator_name(opt: bool) -> (name: Name)
        ensures
            exists|first: Name, second: Name|
                #![trigger
                    call_ensures(T::validator_name, (false,), first),
                    call_ensures(E::validator_name, (false,), second)]
                call_ensures(T::validator_name, (false,), first) && call_ensures(
                    E::validator_name,
                    (false,),
                    second,
                ) && name@ == name_with("std::result"@, "Result"@, seq![first@, second@]),
    {
        proof {
            reveal_strlit("std::result");
            reveal_strlit("Result");
        }
        name_of_two("std::result", "Result", T::validator_name(false), E::validator_name(false))
    }

    /// The enum of `Ok` with what `T` resolves to and of `Err` with what `E`
    /// resolves to, in this order. The generator changes as the two
    /// resolutions change it, and the first error is handed on.
    fn validator(gen: &mut SchemaGenerator, opt: bool) -> (validator: Result<
        ValidatorTree,
        SchemaError,
    >)
        ensures
            generator_wf(final(gen)@),
            exists|between: GeneratorView, one: Result<ValidatorTree, SchemaError>| #[trigger]
                resolved::<T>(old(gen)@, between, false, one) && match one {
                    Err(_) => between == final(gen)@ && validator == one,
                    Ok(first) => match validator {
                        Ok(ValidatorTree::Enum(variants)) => {
                            &&& variants@.len() == 2
                            &&& variants@[0].0@ == "Ok"@
                            &&& variants@[0].1 == Some(first)
                            &&& variants@[1].0@ == "Err"@
                            &&& variants@[1].1 matches Some(second)
                            &&& resolved::<E>(between, final(gen)@, false, Ok(second))
                        },
                        Ok(_) => false,
                        Err(_) => resolved::<E>(between, final(gen)@, false, validator),
                    },
                },
    {
        let first: ValidatorTree = match gen.type_add::<T>() {
            Ok(first) => first,
            Err(e) => {
                return Err(e);
            },
        };
        let second: ValidatorTree = match gen.type_add::<E>() {
            Ok(second) => second,
            Err(e) => {
                return Err(e);
            },
        };
        let mut variants: Vec<(String, Option<ValidatorTree>)> = Vec::new();
        variants.push((String::from_str("Ok"), Some(first)));
        variants.push((String::from_str("Err"), Some(second)));
        Ok(ValidatorTree::Enum(variants))
    }
}

impl<T: FogValidate> FogValidate for std::ops::Bound<T> {
    /// The marker tells the descriptor of the parameter too: two shapes of
    /// this kind are the same descriptor only where their parameters are.
    fn origin(opt: bool) -> (marker: String)
        ensures
            exists|inner: String| #[trigger]
                call_ensures(T::origin, (false,), inner) && marker@ == marker_of(
                    "std::ops::Bound"@,
                    inner@,
                ),
    {
        marker_with("std::ops::Bound", T::origin(false))
    }

    fn should_reference(opt: bool) -> (shared: bool)
        ensures
            shared,
    {
        true
    }

    fn has_opt() -> (differs: bool)
        ensures
            !differs,
    {
        false
    }

    fn validator_name(opt: bool) -> (name: Name)
        ensures
            exists|param: Name| #[trigger]
                call_ensures(T::validator_name, (false,), param) && name@ == name_with(
                    "std::ops"@,
                    "Bound"@,
                    seq![param@],
                ),
    {
        proof {
            reveal_strlit("std::ops");
            reveal_strlit("Bound");
        }
        name_of_one("std::ops", "Bound", T::validator_name(false))
    }

    /// The enum of `Included` and `Excluded`, each with what `T` resolves
    /// to, and of `Unbounded`. The generator changes as resolving `T` twice
    /// changes it, and the first error is handed on.
    fn validator(gen: &mut SchemaGenerator, opt: bool) -> (validator: Result<
        ValidatorTree,
        SchemaError,
    >)
        ensures
            generator_wf(final(gen)@),
            exists|between: GeneratorView, one: Result<ValidatorTree, SchemaError>| #[trigger]
                resolved::<T>(old(gen)@, between, false, one) && match one {
                    Err(_) => between == final(gen)@ && validator == one,
                    Ok(first) => match validator {
                        Ok(ValidatorTree::Enum(variants)) => {
                            &&& variants@.len() == 3
                            &&& variants@[0].0@ == "Included"@
                            &&& variants@[0].1 == Some(first)
                            &&& variants@[1].0@ == "Excluded"@
                            &&& variants@[2].0@ == "Unbounded"@
                            &&& variants@[2].1 is None
                            &&& variants@[1].1 matches Some(second)
                            &&& resolved::<T>(between, final(gen)@, false, Ok(second))
                        },
                        Ok(_) => false,
                        Err(_) => resolved::<T>(between, final(gen)@, false, validator),
                    },
                },
    {
        let first: ValidatorTree = match gen.type_add::<T>() {
            Ok(first) => first,
            Err(e) => {
                return Err(e);
            },
        };
        let second: ValidatorTree = match gen.type_add::<T>() {
            Ok(second) => second,
            Err(e) => {
                return Err(e);
            },
        };
        let mut variants: Vec<(String, Option<ValidatorTree>)> = Vec::new();
        variants.push((String::from_str("Included"), Some(first)));
        variants.push((String::from_str("Excluded"), Some(second)));
        variants.push((String::from_str("Unbounded"), None));
        Ok(ValidatorTree::Enum(variants))
    }
}

impl<Idx: FogValidate + Default> FogValidate for std::ops::Range<Idx> where
    fog_pack::types::Value: From<Idx>,
 {
    /// The marker tells the descriptor of the parameter too: two shapes of
    /// this kind are the same descriptor only where their parameters are.
    fn origin(opt: bool) -> (marker: String)
        ensures
            exists|inner: String| #[trigger]
                call_ensures(Idx::origin, (false,), inner) && marker@ == marker_of(
                    "std::ops::Range"@,
                    inner@,
                ),
    {
        marker_with("std::ops::Range", Idx::origin(false))
    }

    fn should_reference(opt: bool) -> (shared: bool)
        ensures
            shared,
    {
        true
    }

    fn has_opt() -> (differs: bool)
        ensures
            differs,
    {
        true
    }

    fn validator_name(opt: bool) -> (name: Name)
        ensures
            exists|param: Name| #[trigger]
                call_ensures(Idx::validator_name, (false,), param) && name@ == name_with(
                    "std::ops"@,
                    if opt {
                        "OptRange"@
                    } else {
                        "Range"@
                    },
                    seq![param@],
                ),
    {
        proof {
            reveal_strlit("std::ops");
            reveal_strlit("OptRange");
            reveal_strlit("Range");
        }
        name_of_one(
            "std::ops",
            if opt {
                "OptRange"
            } else {
                "Range"
            },
            Idx::validator_name(false),
        )
    }

    /// The map of `start` and `end`, each with the validator that `Idx`
    /// computes, in this order; where `opt` is set, without the range from
    /// the default value to itself: the rules that
    /// fog-pack makes by banning a map of `start` and `end`. The generator
    /// changes as the two computations change it, and the first error is
    /// handed on.
    fn validator(gen: &mut SchemaGenerator, opt: bool) -> (validator: Result<
        ValidatorTree,
        SchemaError,
    >)
        ensures
            exists|one: &mut SchemaGenerator, start: Result<ValidatorTree, SchemaError>|
                *one == *old(gen) && #[trigger] call_ensures(Idx::validator, (one, false), start)
                    && match start {
                    Err(_) => *final(one) == *final(gen) && validator == start,
                    Ok(first) => exists|
                        two: &mut SchemaGenerator,
                        end: Result<ValidatorTree, SchemaError>,
                    |
                        *two == *final(one) && *final(two) == *final(gen) && #[trigger] call_ensures(
                            Idx::validator,
                            (two, false),
                            end,
                        ) && match end {
                            Err(_) => validator == end,
                            Ok(second) => {
                                &&& validator matches Ok(
                                    ValidatorTree::Mapping { req, opt: optional, values, rules },
                                )
                                &&& req@.len() == 2
                                &&& req@[0].0@ == "start"@
                                &&& req@[0].1 == first
                                &&& req@[1].0@ == "end"@
                                &&& req@[1].1 == second
                                &&& optional@.len() == 0
                                &&& values is None
                                &&& opt ==> exists|
                                    begun: fog_pack::validator::MapValidator,
                                    banned: Seq<(String, fog_pack::types::Value)>,
                                |
                                    {
                                        &&& rules == #[trigger] map_nin_added(begun, banned)
                                        &&& banned.len() == 2
                                        &&& banned[0].0@ == "start"@
                                        &&& banned[1].0@ == "end"@
                                    }
                            },
                        },
                },
    {
        let start: ValidatorTree = match Idx::validator(gen, false) {
            Ok(start) => start,
            Err(e) => {
                return Err(e);
            },
        };
        let end: ValidatorTree = match Idx::validator(gen, false) {
            Ok(end) => end,
            Err(e) => {
                return Err(e);
            },
        };
        let mut fields: Vec<(String, ValidatorTree)> = Vec::new();
        fields.push((String::from_str("start"), start));
        fields.push((String::from_str("end"), end));
        let mut rules = map_new();
        if opt {
            let mut banned: Vec<(String, fog_pack::types::Value)> = Vec::new();
            banned.push((String::from_str("start"), value_from(Idx::default())));
            banned.push((String::from_str("end"), value_from(Idx::default())));
            rules = map_nin_add(rules, banned);
        }
        Ok(record(fields, rules))
    }
}

impl<Idx: FogValidate> FogValidate for std::ops::RangeInclusive<Idx> {
    /// The marker tells the descriptor of the parameter too: two shapes of
    /// this kind are the same descriptor only where their parameters are.
    fn origin(opt: bool) -> (marker: String)
        ensures
            exists|inner: String| #[trigger]
                call_ensures(Idx::origin, (false,), inner) && marker@ == marker_of(
                    "std::ops::RangeInclusive"@,
                    inner@,
                ),
    {
        marker_with("std::ops::RangeInclusive", Idx::origin(false))
    }

    fn should_reference(opt: bool) -> (shared: bool)
        ensures
            shared,
    {
        true
    }

    fn has_opt() -> (differs: bool)
        ensures
            !differs,
    {
        false
    }

    fn validator_name(opt: bool) -> (name: Name)
        ensures
            exists|param: Name| #[trigger]
                call_ensures(Idx::validator_name, (false,), param) && name@ == name_with(
                    "std::ops"@,
                    "RangeInclusive"@,
                    seq![param@],
                ),
    {
        proof {
            reveal_strlit("std::ops");
            reveal_strlit("RangeInclusive");
        }
        name_of_one("std::ops", "RangeInclusive", Idx::validator_name(false))
    }

    /// The map of `start` and `end`, each with the validator that `Idx`
    /// computes, in this order. The generator changes as the two
    /// computations change it, and the first error is handed on.
    fn validator(gen: &mut SchemaGenerator, opt: bool) -> (validator: Result<
        ValidatorTree,
        SchemaError,
    >)
        ensures
            exists|one: &mut SchemaGenerator, start: Result<ValidatorTree, SchemaError>|
                *one == *old(gen) && #[trigger] call_ensures(Idx::validator, (one, false), start)
                    && match start {
                    Err(_) => *final(one) == *final(gen) && validator == start,
                    Ok(first) => exists|
                        two: &mut SchemaGenerator,
                        end: Result<ValidatorTree, SchemaError>,
                    |
                        *two == *final(one) && *final(two) == *final(gen) && #[trigger] call_ensures(
                            Idx::validator,
                            (two, false),
                            end,
                        ) && match end {
                            Err(_) => validator == end,
                            Ok(second) => {
                                &&& validator matches Ok(
                                    ValidatorTree::Mapping { req, opt: optional, values, rules },
                                )
                                &&& req@.len() == 2
                                &&& req@[0].0@ == "start"@
                                &&& req@[0].1 == first
                                &&& req@[1].0@ == "end"@
                                &&& req@[1].1 == second
                                &&& optional@.len() == 0
                                &&& values is None
                            },
                        },
                },
    {
        let start: ValidatorTree = match Idx::validator(gen, false) {
            Ok(start) => start,
            Err(e) => {
                return Err(e);
            },
        };
        let end: ValidatorTree = match Idx::validator(gen, false) {
            Ok(end) => end,
            Err(e) => {
                return Err(e);
            },
        };
        let mut fields: Vec<(String, ValidatorTree)> = Vec::new();
        fields.push((String::from_str("start"), start));
        fields.push((String::from_str("end"), end));
        Ok(record(fields, map_new()))
    }
}

impl<Idx: FogValidate> FogValidate for std::ops::RangeFrom<Idx> {
    /// The marker tells the descriptor of the parameter too: two shapes of
    /// this kind are the same descriptor only where their parameters are.
    fn origin(opt: bool) -> (marker: String)
        ensures
            exists|inner: String| #[trigger]
                call_ensures(Idx::origin, (false,), inner) && marker@ == marker_of(
                    "std::ops::RangeFrom"@,
                    inner@,
                ),
    {
        marker_with("std::ops::RangeFrom", Idx::origin(false))
    }

    fn should_reference(opt: bool) -> (shared: bool)
        ensures
            shared,
    {
        true
    }

    fn has_opt() -> (differs: bool)
        ensures
            !differs,
    {
        false
    }

    fn validator_name(opt: bool) -> (name: Name)
        ensures
            exists|param: Name| #[trigger]
                call_ensures(Idx::validator_name, (false,), param) && name@ == name_with(
                    "std::ops"@,
                    "RangeFrom"@,
                    seq![param@],
                ),
    {
        proof {
            reveal_strlit("std::ops");
            reveal_strlit("RangeFrom");
        }
        name_of_one("std::ops", "RangeFrom", Idx::validator_name(false))
    }

    /// The map of `start` with the validator that `Idx` computes, with what
    /// that does to the generator; an error of that is handed on.
    fn validator(gen: &mut SchemaGenerator, opt: bool) -> (validator: Result<
        ValidatorTree,
        SchemaError,
    >)
        ensures
            exists|one: &mut SchemaGenerator, bound: Result<ValidatorTree, SchemaError>|
                *one == *old(gen) && *final(one) == *final(gen) && #[trigger] call_ensures(
                    Idx::validator,
                    (one, false),
                    bound,
                ) && match bound {
                    Err(_) => validator == bound,
                    Ok(held) => {
                        &&& validator matches Ok(
                            ValidatorTree::Mapping { req, opt: optional, values, rules },
                        )
                        &&& req@.len() == 1
                        &&& req@[0].0@ == "start"@
                        &&& req@[0].1 == held
                        &&& optional@.len() == 0
                        &&& values is None
                    },
                },
    {
        match Idx::validator(gen, false) {
            Ok(bound) => {
                let mut fields: Vec<(String, ValidatorTree)> = Vec::new();
                fields.push((String::from_str("start"), bound));
                Ok(record(fields, map_new()))
            },
            Err(e) => Err(e),
        }
    }
}

impl<Idx: FogValidate> FogValidate for std::ops::RangeTo<Idx> {
    /// The marker tells the descriptor of the parameter too: two shapes of
    /// this kind are the same descriptor only where their parameters are.
    fn origin(opt: bool) -> (marker: String)
        ensures
            exists|inner: String| #[trigger]
                call_ensures(Idx::origin, (false,), inner) && marker@ == marker_of(
                    "std::ops::RangeTo"@,
                    inner@,
                ),
    {
        marker_with("std::ops::RangeTo", Idx::origin(false))
    }

    fn should_reference(opt: bool) -> (shared: bool)
        ensures
            shared,
    {
        true
    }

    fn has_opt() -> (differs: bool)
        ensures
            !differs,
    {
        false
    }

    fn validator_name(opt: bool) -> (name: Name)
        ensures
            exists|param: Name| #[trigger]
                call_ensures(Idx::validator_name, (false,), param) && name@ == name_with(
                    "std::ops"@,
                    "RangeTo"@,
                    seq![param@],
                ),
    {
        proof {
            reveal_strlit("std::ops");
            reveal_strlit("RangeTo");
        }
        name_of_one("std::ops", "RangeTo", Idx::validator_name(false))
    }

    /// The map of `end` with the validator that `Idx` computes, with what
    /// that does to the generator; an error of that is handed on.
    fn validator(gen: &mut SchemaGenerator, opt: bool) -> (validator: Result<
        ValidatorTree,
        SchemaError,
    >)
        ensures
            exists|one: &mut SchemaGenerator, bound: Result<ValidatorTree, SchemaError>|
                *one == *old(gen) && *final(one) == *final(gen) && #[trigger] call_ensures(
                    Idx::validator,
                    (one, false),
                    bound,
                ) && match bound {
                    Err(_) => validator == bound,
                    Ok(held) => {
                        &&& validator matches Ok(
                            ValidatorTree::Mapping { req, opt: optional, values, rules },
                        )
                        &&& req@.len() == 1
                        &&& req@[0].0@ == "end"@
                        &&& req@[0].1 == held
                        &&& optional@.len() == 0
                        &&& values is None
                    },
                },
    {
        match Idx::validator(gen, false) {
            Ok(bound) => {
                let mut fields: Vec<(String, ValidatorTree)> = Vec::new();
                fields.push((String::from_str("end"), bound));
                Ok(record(fields, map_new()))
            },
            Err(e) => Err(e),
        }
    }
}

} // verus!
