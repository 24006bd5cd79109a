//! Descriptors of tuples, up to 16 items. They are not shared: the
//! validators of the items are.

use vstd::prelude::*;
use vstd::string::StringExecFns;
use crate::error::SchemaError;
use crate::fog::{array_max_len, array_min_len, array_new};
use crate::generator::{
    chained, gathered, generator_wf, lemma_gathered_failed, lemma_gathered_more, step_of,
    FogValidate, GeneratorView, SchemaGenerator, Step,
};
use crate::name::{identifier_of, Name};
use crate::schema_impls::array::sized_rules;
use crate::tree::ValidatorTree;

verus! {

/// The validator of the arrays of `len` items that pass the validators of
/// `prefix`, one each. Its rules are what fog-pack makes of the rules that
/// allow every array, as `sized_rules` says.
pub fn tuple_validator(prefix: Vec<ValidatorTree>, len: u32) -> (validator: ValidatorTree)
    ensures
        validator matches ValidatorTree::Array { contains, items, prefix: held, rules }
            && contains@.len() == 0 && *items is Any && held == prefix && exists|
            start: fog_pack::validator::ArrayValidator,
        | rules == #[trigger] sized_rules(start, len),
{
    let start = array_new();
    let ghost begun = start;
    let rules = array_max_len(array_min_len(start, len), len);
    assert(rules == sized_rules(begun, len));
    ValidatorTree::Array {
        contains: Vec::new(),
        items: Box::new(ValidatorTree::Any),
        prefix,
        rules,
    }
}

/// Resolves `T` and puts what it resolves to at the end of `items`. The
/// step is what was done: the generator before and after, and the answer.
fn next_item<T: FogValidate>(gen: &mut SchemaGenerator, items: &mut Vec<ValidatorTree>) -> (done: (
    Result<(), SchemaError>,
    Ghost<Step>,
))
    ensures
        generator_wf(final(gen)@),
        done.1@.before == old(gen)@,
        done.1@.after == final(gen)@,
        step_of::<T>(done.1@),
        match done.0 {
            Ok(_) => done.1@.answer matches Ok(item) && final(items)@ == old(items)@.push(item),
            Err(e) => done.1@.answer == Err::<ValidatorTree, SchemaError>(e) && final(items)@
                == old(items)@,
        },
{
    let ghost before = gen@;
    proof {
        reveal(step_of);
    }
    match gen.type_add::<T>() {
        Ok(item) => {
            let ghost step = Step { before, after: gen@, answer: Ok(item) };
            items.push(item);
            (Ok(()), Ghost(step))
        },
        Err(e) => {
            let ghost step = Step { before, after: gen@, answer: Err(e) };
            (Err(e), Ghost(step))
        },
    }
}

impl<T0: FogValidate> FogValidate for (T0,) {
    fn origin(opt: bool) -> (marker: String)
        ensures
            marker@ == "Tuple1"@,
    {
        String::from_str("Tuple1")
    }

    fn should_reference(opt: bool) -> (shared: bool)
        ensures
            !shared,
    {
        false
    }

    fn has_opt() -> (differs: bool)
        ensures
            !differs,
    {
        false
    }

    fn validator_name(opt: bool) -> (name: Name)
        ensures
            name@.id == identifier_of(""@, "Tuple1"@),
            name@.type_params.len() == 1,
    {
        proof {
            reveal_strlit("");
            reveal_strlit("Tuple1");
        }
        let mut params: Vec<Name> = Vec::new();
        params.push(T0::validator_name(false));
        Name::with_types("", "Tuple1", params)
    }

    /// The array with what each of the shapes resolves to, one after the
    /// other. The steps are the resolutions that were made, each as `step_of`
    /// says for its shape: the generator changes as they change it, and the
    /// first error ends the way and is handed on.
    fn validator(gen: &mut SchemaGenerator, opt: bool) -> (validator: Result<
        ValidatorTree,
        SchemaError,
    >)
        ensures
            generator_wf(final(gen)@),
            exists|steps: Seq<Step>|
                {
                    &&& #[trigger] chained(old(gen)@, final(gen)@, steps)
                    &&& steps.len() <= 1
                    &&& 0 < steps.len() ==> step_of::<T0>(steps[0])
                    &&& match validator {
                        Ok(ValidatorTree::Array { contains, items, prefix, rules }) => {
                            &&& contains@.len() == 0
                            &&& *items is Any
                            &&& gathered(old(gen)@, final(gen)@, steps, prefix@)
                            &&& prefix@.len() == 1
                            &&& exists|start: fog_pack::validator::ArrayValidator|
                                rules == #[trigger] sized_rules(start, 1)
                        },
                        Ok(_) => false,
                        Err(_) => steps.last().answer == validator,
                    }
                },
    {
        let ghost start = gen@;
        let ghost mut steps: Seq<Step> = Seq::empty();
        let mut prefix: Vec<ValidatorTree> = Vec::new();
        let ghost now = gen@;
        let (next, Ghost(step)) = next_item::<T0>(gen, &mut prefix);
        match next {
            Ok(_) => {
                proof {
                    lemma_gathered_more(
                        start,
                        now,
                        steps,
                        prefix@.drop_last(),
                        step,
                        prefix@.last(),
                    );
                    assert(prefix@.drop_last().push(prefix@.last()) =~= prefix@);
                    steps = steps.push(step);
                }
            },
            Err(e) => {
                proof {
                    lemma_gathered_failed(start, now, steps, prefix@, step);
                    steps = steps.push(step);
                }
                return Err(e);
            },
        }
        Ok(tuple_validator(prefix, 1))
    }
}

impl<T0: FogValidate, T1: FogValidate> FogValidate for (T0, T1) {
    fn origin(opt: bool) -> (marker: String)
        ensures
            marker@ == "Tuple2"@,
    {
        String::from_str("Tuple2")
    }

    fn should_reference(opt: bool) -> (shared: bool)
        ensures
            !shared,
    {
        false
    }

    fn has_opt() -> (differs: bool)
        ensures
            !differs,
    {
        false
    }

    fn validator_name(opt: bool) -> (name: Name)
        ensures
            name@.id == identifier_of(""@, "Tuple2"@),
            name@.type_params.len() == 2,
    {
        proof {
            reveal_strlit("");
            reveal_strlit("Tuple2");
        }
        let mut params: Vec<Name> = Vec::new();
        params.push(T0::validator_name(false));
        params.push(T1::validator_name(false));
        Name::with_types("", "Tuple2", params)
    }

    /// The array with what each of the shapes resolves to, one after the
    /// other. The steps are the resolutions that were made, each as `step_of`
    /// says for its shape: the generator changes as they change it, and the
    /// first error ends the way and is handed on.
    fn validator(gen: &mut SchemaGenerator, opt: bool) -> (validator: Result<
        ValidatorTree,
        SchemaError,
    >)
        ensures
            generator_wf(final(gen)@),
            exists|steps: Seq<Step>|
                {
                    &&& #[trigger] chained(old(gen)@, final(gen)@, steps)
                    &&& steps.len() <= 2
                    &&& 0 < steps.len() ==> step_of::<T0>(steps[0])
                    &&& 1 < steps.len() ==> step_of::<T1>(steps[1])
                    &&& match validator {
                        Ok(ValidatorTree::Array { contains, items, prefix, rules }) => {
                            &&& contains@.len() == 0
                            &&& *items is Any
                            &&& gathered(old(gen)@, final(gen)@, steps, prefix@)
                            &&& prefix@.len() == 2
                            &&& exists|start: fog_pack::validator::ArrayValidator|
                                rules == #[trigger] sized_rules(start, 2)
                        },
                        Ok(_) => false,
                        Err(_) => steps.last().answer == validator,
                    }
                },
    {
        let ghost start = gen@;
        let ghost mut steps: Seq<Step> = Seq::empty();
        let mut prefix: Vec<ValidatorTree> = Vec::new();
        let ghost now = gen@;
        let (next, Ghost(step)) = next_item::<T0>(gen, &mut prefix);
        match next {
            Ok(_) => {
                proof {
                    lemma_gathered_more(
                        start,
                        now,
                        steps,
                        prefix@.drop_last(),
                        step,
                        prefix@.last(),
                    );
                    assert(prefix@.drop_last().push(prefix@.last()) =~= prefix@);
                    steps = steps.push(step);
                }
            },
            Err(e) => {
                proof {
                    lemma_gathered_failed(start, now, steps, prefix@, step);
                    steps = steps.push(step);
                }
                return Err(e);
            },
        }
        let ghost now = gen@;
        let (next, Ghost(step)) = next_item::<T1>(gen, &mut prefix);
        match next {
            Ok(_) => {
                proof {
                    lemma_gathered_more(
                        start,
                        now,
                        steps,
                        prefix@.drop_last(),
                        step,
                        prefix@.last(),
                    );
                    assert(prefix@.drop_last().push(prefix@.last()) =~= prefix@);
                    steps = steps.push(step);
                }
            },
            Err(e) => {
                proof {
                    lemma_gathered_failed(start, now, steps, prefix@, step);
                    steps = steps.push(step);
                }
                return Err(e);
            },
        }
        Ok(tuple_validator(prefix, 2))
    }
}

impl<T0: FogValidate, T1: FogValidate, T2: FogValidate> FogValidate for (T0, T1, T2) {
    fn origin(opt: bool) -> (marker: String)
        ensures
            marker@ == "Tuple3"@,
    {
        String::from_str("Tuple3")
    }

    fn should_reference(opt: bool) -> (shared: bool)
        ensures
            !shared,
    {
        false
    }

    fn has_opt() -> (differs: bool)
        ensures
            !differs,
    {
        false
    }

    fn validator_name(opt: bool) -> (name: Name)
        ensures
            name@.id == identifier_of(""@, "Tuple3"@),
            name@.type_params.len() == 3,
    {
        proof {
            reveal_strlit("");
            reveal_strlit("Tuple3");
        }
        let mut params: Vec<Name> = Vec::new();
        params.push(T0::validator_name(false));
        params.push(T1::validator_name(false));
        params.push(T2::validator_name(false));
        Name::with_types("", "Tuple3", params)
    }

    /// The array with what each of the shapes resolves to, one after the
    /// other. The steps are the resolutions that were made, each as `step_of`
    /// says for its shape: the generator changes as they change it, and the
    /// first error ends the way and is handed on.
    fn validator(gen: &mut SchemaGenerator, opt: bool) -> (validator: Result<
        ValidatorTree,
        SchemaError,
    >)
        ensures
            generator_wf(final(gen)@),
            exists|steps: Seq<Step>|
                {
                    &&& #[trigger] chained(old(gen)@, final(gen)@, steps)
                    &&& steps.len() <= 3
                    &&& 0 < steps.len() ==> step_of::<T0>(steps[0])
                    &&& 1 < steps.len() ==> step_of::<T1>(steps[1])
                    &&& 2 < steps.len() ==> step_of::<T2>(steps[2])
                    &&& match validator {
                        Ok(ValidatorTree::Array { contains, items, prefix, rules }) => {
                            &&& contains@.len() == 0
                            &&& *items is Any
                            &&& gathered(old(gen)@, final(gen)@, steps, prefix@)
                            &&& prefix@.len() == 3
                            &&& exists|start: fog_pack::validator::ArrayValidator|
                                rules == #[trigger] sized_rules(start, 3)
                        },
                        Ok(_) => false,
                        Err(_) => steps.last().answer == validator,
                    }
                },
    {
        let ghost start = gen@;
        let ghost mut steps: Seq<Step> = Seq::empty();
        let mut prefix: Vec<ValidatorTree> = Vec::new();
        let ghost now = gen@;
        let (next, Ghost(step)) = next_item::<T0>(gen, &mut prefix);
        match next {
            Ok(_) => {
                proof {
                    lemma_gathered_more(
                        start,
                        now,
                        steps,
                        prefix@.drop_last(),
                        step,
                        prefix@.last(),
                    );
                    assert(prefix@.drop_last().push(prefix@.last()) =~= prefix@);
                    steps = steps.push(step);
                }
            },
            Err(e) => {
                proof {
                    lemma_gathered_failed(start, now, steps, prefix@, step);
                    steps = steps.push(step);
                }
                return Err(e);
            },
        }
        let ghost now = gen@;
        let (next, Ghost(step)) = next_item::<T1>(gen, &mut prefix);
        match next {
            Ok(_) => {
                proof {
                    lemma_gathered_more(
                        start,
                        now,
                        steps,
                        prefix@.drop_last(),
                        step,
                        prefix@.last(),
                    );
                    assert(prefix@.drop_last().push(prefix@.last()) =~= prefix@);
                    steps = steps.push(step);
                }
            },
            Err(e) => {
                proof {
                    lemma_gathered_failed(start, now, steps, prefix@, step);
                    steps = steps.push(step);
                }
                return Err(e);
            },
        }
        let ghost now = gen@;
        let (next, Ghost(step)) = next_item::<T2>(gen, &mut prefix);
        match next {
            Ok(_) => {
                proof {
                    lemma_gathered_more(
                        start,
                        now,
                        steps,
                        prefix@.drop_last(),
                        step,
                        prefix@.last(),
                    );
                    assert(prefix@.drop_last().push(prefix@.last()) =~= prefix@);
                    steps = steps.push(step);
                }
            },
            Err(e) => {
                proof {
                    lemma_gathered_failed(start, now, steps, prefix@, step);
                    steps = steps.push(step);
                }
                return Err(e);
            },
        }
        Ok(tuple_validator(prefix, 3))
    }
}

impl<
    T0: FogValidate,
    T1: FogValidate,
    T2: FogValidate,
    T3: FogValidate,
> FogValidate for (T0, T1, T2, T3) {
    fn origin(opt: bool) -> (marker: String)
        ensures
            marker@ == "Tuple4"@,
    {
        String::from_str("Tuple4")
    }

    fn should_reference(opt: bool) -> (shared: bool)
        ensures
            !shared,
    {
        false
    }

    fn has_opt() -> (differs: bool)
        ensures
            !differs,
    {
        false
    }

    fn validator_name(opt: bool) -> (name: Name)
        ensures
            name@.id == identifier_of(""@, "Tuple4"@),
            name@.type_params.len() == 4,
    {
        proof {
            reveal_strlit("");
            reveal_strlit("Tuple4");
        }
        let mut params: Vec<Name> = Vec::new();
        params.push(T0::validator_name(false));
        params.push(T1::validator_name(false));
        params.push(T2::validator_name(false));
        params.push(T3::validator_name(false));
        Name::with_types("", "Tuple4", params)
    }

    /// The array with what each of the shapes resolves to, one after the
    /// other. The steps are the resolutions that were made, each as `step_of`
    /// says for its shape: the generator changes as they change it, and the
    /// first error ends the way and is handed on.
    fn validator(gen: &mut SchemaGenerator, opt: bool) -> (validator: Result<
        ValidatorTree,
        SchemaError,
    >)
        ensures
            generator_wf(final(gen)@),
            exists|steps: Seq<Step>|
                {
                    &&& #[trigger] chained(old(gen)@, final(gen)@, steps)
                    &&& steps.len() <= 4
                    &&& 0 < steps.len() ==> step_of::<T0>(steps[0])
                    &&& 1 < steps.len() ==> step_of::<T1>(steps[1])
                    &&& 2 < steps.len() ==> step_of::<T2>(steps[2])
                    &&& 3 < steps.len() ==> step_of::<T3>(steps[3])
                    &&& match validator {
                        Ok(ValidatorTree::Array { contains, items, prefix, rules }) => {
                            &&& contains@.len() == 0
                            &&& *items is Any
                            &&& gathered(old(gen)@, final(gen)@, steps, prefix@)
                            &&& prefix@.len() == 4
                            &&& exists|start: fog_pack::validator::ArrayValidator|
                                rules == #[trigger] sized_rules(start, 4)
                        },
                        Ok(_) => false,
                        Err(_) => steps.last().answer == validator,
                    }
                },
    {
        let ghost start = gen@;
        let ghost mut steps: Seq<Step> = Seq::empty();
        let mut prefix: Vec<ValidatorTree> = Vec::new();
        let ghost now = gen@;
        let (next, Ghost(step)) = next_item::<T0>(gen, &mut prefix);
        match next {
            Ok(_) => {
                proof {
                    lemma_gathered_more(
                        start,
                        now,
                        steps,
                        prefix@.drop_last(),
                        step,
                        prefix@.last(),
                    );
                    assert(prefix@.drop_last().push(prefix@.last()) =~= prefix@);
                    steps = steps.push(step);
                }
            },
            Err(e) => {
                proof {
                    lemma_gathered_failed(start, now, steps, prefix@, step);
                    steps = steps.push(step);
                }
                return Err(e);
            },
        }
        let ghost now = gen@;
        let (next, Ghost(step)) = next_item::<T1>(gen, &mut prefix);
        match next {
            Ok(_) => {
                proof {
                    lemma_gathered_more(
                        start,
                        now,
                        steps,
                        prefix@.drop_last(),
                        step,
                        prefix@.last(),
                    );
                    assert(prefix@.drop_last().push(prefix@.last()) =~= prefix@);
                    steps = steps.push(step);
                }
            },
            Err(e) => {
                proof {
                    lemma_gathered_failed(start, now, steps, prefix@, step);
                    steps = steps.push(step);
                }
                return Err(e);
            },
        }
        let ghost now = gen@;
        let (next, Ghost(step)) = next_item::<T2>(gen, &mut prefix);
        match next {
            Ok(_) => {
                proof {
                    lemma_gathered_more(
                        start,
                        now,
                        steps,
                        prefix@.drop_last(),
                        step,
                        prefix@.last(),
                    );
                    assert(prefix@.drop_last().push(prefix@.last()) =~= prefix@);
                    steps = steps.push(step);
                }
            },
            Err(e) => {
                proof {
                    lemma_gathered_failed(start, now, steps, prefix@, step);
                    steps = steps.push(step);
                }
                return Err(e);
            },
        }
        let ghost now = gen@;
        let (next, Ghost(step)) = next_item::<T3>(gen, &mut prefix);
        match next {
            Ok(_) => {
                proof {
                    lemma_gathered_more(
                        start,
                        now,
                        steps,
                        prefix@.drop_last(),
                        step,
                        prefix@.last(),
                    );
                    assert(prefix@.drop_last().push(prefix@.last()) =~= prefix@);
                    steps = steps.push(step);
                }
            },
            Err(e) => {
                proof {
                    lemma_gathered_failed(start, now, steps, prefix@, step);
                    steps = steps.push(step);
                }
                return Err(e);
            },
        }
        Ok(tuple_validator(prefix, 4))
    }
}

impl<
    T0: FogValidate,
    T1: FogValidate,
    T2: FogValidate,
    T3: FogValidate,
    T4: FogValidate,
> FogValidate for (T0, T1, T2, T3, T4) {
    fn origin(opt: bool) -> (marker: String)
        ensures
            marker@ == "Tuple5"@,
    {
        String::from_str("Tuple5")
    }

    fn should_reference(opt: bool) -> (shared: bool)
        ensures
            !shared,
    {
        false
    }

    fn has_opt() -> (differs: bool)
        ensures
            !differs,
    {
        false
    }

    fn validator_name(opt: bool) -> (name: Name)
        ensures
            name@.id == identifier_of(""@, "Tuple5"@),
            name@.type_params.len() == 5,
    {
        proof {
            reveal_strlit("");
            reveal_strlit("Tuple5");
        }
        let mut params: Vec<Name> = Vec::new();
        params.push(T0::validator_name(false));
        params.push(T1::validator_name(false));
        params.push(T2::validator_name(false));
        params.push(T3::validator_name(false));
        params.push(T4::validator_name(false));
        Name::with_types("", "Tuple5", params)
    }

    /// The array with what each of the shapes resolves to, one after the
    /// other. The steps are the resolutions that were made, each as `step_of`
    /// says for its shape: the generator changes as they change it, and the
    /// first error ends the way and is handed on.
    fn validator(gen: &mut SchemaGenerator, opt: bool) -> (validator: Result<
        ValidatorTree,
        SchemaError,
    >)
        ensures
            generator_wf(final(gen)@),
            exists|steps: Seq<Step>|
                {
                    &&& #[trigger] chained(old(gen)@, final(gen)@, steps)
                    &&& steps.len() <= 5
                    &&& 0 < steps.len() ==> step_of::<T0>(steps[0])
                    &&& 1 < steps.len() ==> step_of::<T1>(steps[1])
                    &&& 2 < steps.len() ==> step_of::<T2>(steps[2])
                    &&& 3 < steps.len() ==> step_of::<T3>(steps[3])
                    &&& 4 < steps.len() ==> step_of::<T4>(steps[4])
                    &&& match validator {
                        Ok(ValidatorTree::Array { contains, items, prefix, rules }) => {
                            &&& contains@.len() == 0
                            &&& *items is Any
                            &&& gathered(old(gen)@, final(gen)@, steps, prefix@)
                            &&& prefix@.len() == 5
                            &&& exists|start: fog_pack::validator::ArrayValidator|
                                rules == #[trigger] sized_rules(start, 5)
                        },
                        Ok(_) => false,
                        Err(_) => steps.last().answer == validator,
                    }
                },
    {
        let ghost start = gen@;
        let ghost mut steps: Seq<Step> = Seq::empty();
        let mut prefix: Vec<ValidatorTree> = Vec::new();
        let ghost now = gen@;
        let (next, Ghost(step)) = next_item::<T0>(gen, &mut prefix);
        match next {
            Ok(_) => {
                proof {
                    lemma_gathered_more(
                        start,
                        now,
                        steps,
                        prefix@.drop_last(),
                        step,
                        prefix@.last(),
                    );
                    assert(prefix@.drop_last().push(prefix@.last()) =~= prefix@);
                    steps = steps.push(step);
                }
            },
            Err(e) => {
                proof {
                    lemma_gathered_failed(start, now, steps, prefix@, step);
                    steps = steps.push(step);
                }
                return Err(e);
            },
        }
        let ghost now = gen@;
        let (next, Ghost(step)) = next_item::<T1>(gen, &mut prefix);
        match next {
            Ok(_) => {
                proof {
                    lemma_gathered_more(
                        start,
                        now,
                        steps,
                        prefix@.drop_last(),
                        step,
                        prefix@.last(),
                    );
                    assert(prefix@.drop_last().push(prefix@.last()) =~= prefix@);
                    steps = steps.push(step);
                }
            },
            Err(e) => {
                proof {
                    lemma_gathered_failed(start, now, steps, prefix@, step);
                    steps = steps.push(step);
                }
                return Err(e);
            },
        }
        let ghost now = gen@;
        let (next, Ghost(step)) = next_item::<T2>(gen, &mut prefix);
        match next {
            Ok(_) => {
                proof {
                    lemma_gathered_more(
                        start,
                        now,
                        steps,
                        prefix@.drop_last(),
                        step,
                        prefix@.last(),
                    );
                    assert(prefix@.drop_last().push(prefix@.last()) =~= prefix@);
                    steps = steps.push(step);
                }
            },
            Err(e) => {
                proof {
                    lemma_gathered_failed(start, now, steps, prefix@, step);
                    steps = steps.push(step);
                }
                return Err(e);
            },
        }
        let ghost now = gen@;
        let (next, Ghost(step)) = next_item::<T3>(gen, &mut prefix);
        match next {
            Ok(_) => {
                proof {
                    lemma_gathered_more(
                        start,
                        now,
                        steps,
                        prefix@.drop_last(),
                        step,
                        prefix@.last(),
                    );
                    assert(prefix@.drop_last().push(prefix@.last()) =~= prefix@);
                    steps = steps.push(step);
                }
            },
            Err(e) => {
                proof {
                    lemma_gathered_failed(start, now, steps, prefix@, step);
                    steps = steps.push(step);
                }
                return Err(e);
            },
        }
        let ghost now = gen@;
        let (next, Ghost(step)) = next_item::<T4>(gen, &mut prefix);
        match next {
            Ok(_) => {
                proof {
                    lemma_gathered_more(
                        start,
                        now,
                        steps,
                        prefix@.drop_last(),
                        step,
                        prefix@.last(),
                    );
                    assert(prefix@.drop_last().push(prefix@.last()) =~= prefix@);
                    steps = steps.push(step);
                }
            },
            Err(e) => {
                proof {
                    lemma_gathered_failed(start, now, steps, prefix@, step);
                    steps = steps.push(step);
                }
                return Err(e);
            },
        }
        Ok(tuple_validator(prefix, 5))
    }
}

impl<
    T0: FogValidate,
    T1: FogValidate,
    T2: FogValidate,
    T3: FogValidate,
    T4: FogValidate,
    T5: FogValidate,
> FogValidate for (T0, T1, T2, T3, T4, T5) {
    fn origin(opt: bool) -> (marker: String)
        ensures
            marker@ == "Tuple6"@,
    {
        String::from_str("Tuple6")
    }

    fn should_reference(opt: bool) -> (shared: bool)
        ensures
            !shared,
    {
        false
    }

    fn has_opt() -> (differs: bool)
        ensures
            !differs,
    {
        false
    }

    fn validator_name(opt: bool) -> (name: Name)
        ensures
            name@.id == identifier_of(""@, "Tuple6"@),
            name@.type_params.len() == 6,
    {
        proof {
            reveal_strlit("");
            reveal_strlit("Tuple6");
        }
        let mut params: Vec<Name> = Vec::new();
        params.push(T0::validator_name(false));
        params.push(T1::validator_name(false));
        params.push(T2::validator_name(false));
        params.push(T3::validator_name(false));
        params.push(T4::validator_name(false));
        params.push(T5::validator_name(false));
        Name::with_types("", "Tuple6", params)
    }

    /// The array with what each of the shapes resolves to, one after the
    /// other. The steps are the resolutions that were made, each as `step_of`
    /// says for its shape: the generator changes as they change it, and the
    /// first error ends the way and is handed on.
    fn validator(gen: &mut SchemaGenerator, opt: bool) -> (validator: Result<
        ValidatorTree,
        SchemaError,
    >)
        ensures
            generator_wf(final(gen)@),
            exists|steps: Seq<Step>|
                {
                    &&& #[trigger] chained(old(gen)@, final(gen)@, steps)
                    &&& steps.len() <= 6
                    &&& 0 < steps.len() ==> step_of::<T0>(steps[0])
                    &&& 1 < steps.len() ==> step_of::<T1>(steps[1])
                    &&& 2 < steps.len() ==> step_of::<T2>(steps[2])
                    &&& 3 < steps.len() ==> step_of::<T3>(steps[3])
                    &&& 4 < steps.len() ==> step_of::<T4>(steps[4])
                    &&& 5 < steps.len() ==> step_of::<T5>(steps[5])
                    &&& match validator {
                        Ok(ValidatorTree::Array { contains, items, prefix, rules }) => {
                            &&& contains@.len() == 0
                            &&& *items is Any
                            &&& gathered(old(gen)@, final(gen)@, steps, prefix@)
                            &&& prefix@.len() == 6
                            &&& exists|start: fog_pack::validator::ArrayValidator|
                                rules == #[trigger] sized_rules(start, 6)
                        },
                        Ok(_) => false,
                        Err(_) => steps.last().answer == validator,
                    }
                },
    {
        let ghost start = gen@;
        let ghost mut steps: Seq<Step> = Seq::empty();
        let mut prefix: Vec<ValidatorTree> = Vec::new();
        let ghost now = gen@;
        let (next, Ghost(step)) = next_item::<T0>(gen, &mut prefix);
        match next {
            Ok(_) => {
                proof {
                    lemma_gathered_more(
                        start,
                        now,
                        steps,
                        prefix@.drop_last(),
                        step,
                        prefix@.last(),
                    );
                    assert(prefix@.drop_last().push(prefix@.last()) =~= prefix@);
                    steps = steps.push(step);
                }
            },
            Err(e) => {
                proof {
                    lemma_gathered_failed(start, now, steps, prefix@, step);
                    steps = steps.push(step);
                }
                return Err(e);
            },
        }
        let ghost now = gen@;
        let (next, Ghost(step)) = next_item::<T1>(gen, &mut prefix);
        match next {
            Ok(_) => {
                proof {
                    lemma_gathered_more(
                        start,
                        now,
                        steps,
                        prefix@.drop_last(),
                        step,
                        prefix@.last(),
                    );
                    assert(prefix@.drop_last().push(prefix@.last()) =~= prefix@);
                    steps = steps.push(step);
                }
            },
            Err(e) => {
                proof {
                    lemma_gathered_failed(start, now, steps, prefix@, step);
                    steps = steps.push(step);
                }
                return Err(e);
            },
        }
        let ghost now = gen@;
        let (next, Ghost(step)) = next_item::<T2>(gen, &mut prefix);
        match next {
            Ok(_) => {
                proof {
                    lemma_gathered_more(
                        start,
                        now,
                        steps,
                        prefix@.drop_last(),
                        step,
                        prefix@.last(),
                    );
                    assert(prefix@.drop_last().push(prefix@.last()) =~= prefix@);
                    steps = steps.push(step);
                }
            },
            Err(e) => {
                proof {
                    lemma_gathered_failed(start, now, steps, prefix@, step);
                    steps = steps.push(step);
                }
                return Err(e);
            },
        }
        let ghost now = gen@;
        let (next, Ghost(step)) = next_item::<T3>(gen, &mut prefix);
        match next {
            Ok(_) => {
                proof {
                    lemma_gathered_more(
                        start,
                        now,
                        steps,
                        prefix@.drop_last(),
                        step,
                        prefix@.last(),
                    );
                    assert(prefix@.drop_last().push(prefix@.last()) =~= prefix@);
                    steps = steps.push(step);
                }
            },
            Err(e) => {
                proof {
                    lemma_gathered_failed(start, now, steps, prefix@, step);
                    steps = steps.push(step);
                }
                return Err(e);
            },
        }
        let ghost now = gen@;
        let (next, Ghost(step)) = next_item::<T4>(gen, &mut prefix);
        match next {
            Ok(_) => {
                proof {
                    lemma_gathered_more(
                        start,
                        now,
                        steps,
                        prefix@.drop_last(),
                        step,
                        prefix@.last(),
                    );
                    assert(prefix@.drop_last().push(prefix@.last()) =~= prefix@);
                    steps = steps.push(step);
                }
            },
            Err(e) => {
                proof {
                    lemma_gathered_failed(start, now, steps, prefix@, step);
                    steps = steps.push(step);
                }
                return Err(e);
            },
        }
        let ghost now = gen@;
        let (next, Ghost(step)) = next_item::<T5>(gen, &mut prefix);
        match next {
            Ok(_) => {
                proof {
                    lemma_gathered_more(
                        start,
                        now,
                        steps,
                        prefix@.drop_last(),
                        step,
                        prefix@.last(),
                    );
                    assert(prefix@.drop_last().push(prefix@.last()) =~= prefix@);
                    steps = steps.push(step);
                }
            },
            Err(e) => {
                proof {
                    lemma_gathered_failed(start, now, steps, prefix@, step);
                    steps = steps.push(step);
                }
                return Err(e);
            },
        }
        Ok(tuple_validator(prefix, 6))
    }
}

impl<
    T0: FogValidate,
    T1: FogValidate,
    T2: FogValidate,
    T3: FogValidate,
    T4: FogValidate,
    T5: FogValidate,
    T6: FogValidate,
> FogValidate for (T0, T1, T2, T3, T4, T5, T6) {
    fn origin(opt: bool) -> (marker: String)
        ensures
            marker@ == "Tuple7"@,
    {
        String::from_str("Tuple7")
    }

    fn should_reference(opt: bool) -> (shared: bool)
        ensures
            !shared,
    {
        false
    }

    fn has_opt() -> (differs: bool)
        ensures
            !differs,
    {
        false
    }

    fn validator_name(opt: bool) -> (name: Name)
        ensures
            name@.id == identifier_of(""@, "Tuple7"@),
            name@.type_params.len() == 7,
    {
        proof {
            reveal_strlit("");
            reveal_strlit("Tuple7");
        }
        let mut params: Vec<Name> = Vec::new();
        params.push(T0::validator_name(false));
        params.push(T1::validator_name(false));
        params.push(T2::validator_name(false));
        params.push(T3::validator_name(false));
        params.push(T4::validator_name(false));
        params.push(T5::validator_name(false));
        params.push(T6::validator_name(false));
        Name::with_types("", "Tuple7", params)
    }

    /// The array with what each of the shapes resolves to, one after the
    /// other. The steps are the resolutions that were made, each as `step_of`
    /// says for its shape: the generator changes as they change it, and the
    /// first error ends the way and is handed on.
    fn validator(gen: &mut SchemaGenerator, opt: bool) -> (validator: Result<
        ValidatorTree,
        SchemaError,
    >)
        ensures
            generator_wf(final(gen)@),
            exists|steps: Seq<Step>|
                {
                    &&& #[trigger] chained(old(gen)@, final(gen)@, steps)
                    &&& steps.len() <= 7
                    &&& 0 < steps.len() ==> step_of::<T0>(steps[0])
                    &&& 1 < steps.len() ==> step_of::<T1>(steps[1])
                    &&& 2 < steps.len() ==> step_of::<T2>(steps[2])
                    &&& 3 < steps.len() ==> step_of::<T3>(steps[3])
                    &&& 4 < steps.len() ==> step_of::<T4>(steps[4])
                    &&& 5 < steps.len() ==> step_of::<T5>(steps[5])
                    &&& 6 < steps.len() ==> step_of::<T6>(steps[6])
                    &&& match validator {
                        Ok(ValidatorTree::Array { contains, items, prefix, rules }) => {
                            &&& contains@.len() == 0
                            &&& *items is Any
                            &&& gathered(old(gen)@, final(gen)@, steps, prefix@)
                            &&& prefix@.len() == 7
                            &&& exists|start: fog_pack::validator::ArrayValidator|
                                rules == #[trigger] sized_rules(start, 7)
                        },
                        Ok(_) => false,
                        Err(_) => steps.last().answer == validator,
                    }
                },
    {
        let ghost start = gen@;
        let ghost mut steps: Seq<Step> = Seq::empty();
        let mut prefix: Vec<ValidatorTree> = Vec::new();
        let ghost now = gen@;
        let (next, Ghost(step)) = next_item::<T0>(gen, &mut prefix);
        match next {
            Ok(_) => {
                proof {
                    lemma_gathered_more(
                        start,
                        now,
                        steps,
                        prefix@.drop_last(),
                        step,
                        prefix@.last(),
                    );
                    assert(prefix@.drop_last().push(prefix@.last()) =~= prefix@);
                    steps = steps.push(step);
                }
            },
            Err(e) => {
                proof {
                    lemma_gathered_failed(start, now, steps, prefix@, step);
                    steps = steps.push(step);
                }
                return Err(e);
            },
        }
        let ghost now = gen@;
        let (next, Ghost(step)) = next_item::<T1>(gen, &mut prefix);
        match next {
            Ok(_) => {
                proof {
                    lemma_gathered_more(
                        start,
                        now,
                        steps,
                        prefix@.drop_last(),
                        step,
                        prefix@.last(),
                    );
                    assert(prefix@.drop_last().push(prefix@.last()) =~= prefix@);
                    steps = steps.push(step);
                }
            },
            Err(e) => {
                proof {
                    lemma_gathered_failed(start, now, steps, prefix@, step);
                    steps = steps.push(step);
                }
                return Err(e);
            },
        }
        let ghost now = gen@;
        let (next, Ghost(step)) = next_item::<T2>(gen, &mut prefix);
        match next {
            Ok(_) => {
                proof {
                    lemma_gathered_more(
                        start,
                        now,
                        steps,
                        prefix@.drop_last(),
                        step,
                        prefix@.last(),
                    );
                    assert(prefix@.drop_last().push(prefix@.last()) =~= prefix@);
                    steps = steps.push(step);
                }
            },
            Err(e) => {
                proof {
                    lemma_gathered_failed(start, now, steps, prefix@, step);
                    steps = steps.push(step);
                }
                return Err(e);
            },
        }
        let ghost now = gen@;
        let (next, Ghost(step)) = next_item::<T3>(gen, &mut prefix);
        match next {
            Ok(_) => {
                proof {
                    lemma_gathered_more(
                        start,
                        now,
                        steps,
                        prefix@.drop_last(),
                        step,
                        prefix@.last(),
                    );
                    assert(prefix@.drop_last().push(prefix@.last()) =~= prefix@);
                    steps = steps.push(step);
                }
            },
            Err(e) => {
                proof {
                    lemma_gathered_failed(start, now, steps, prefix@, step);
                    steps = steps.push(step);
                }
                return Err(e);
            },
        }
        let ghost now = gen@;
        let (next, Ghost(step)) = next_item::<T4>(gen, &mut prefix);
        match next {
            Ok(_) => {
                proof {
                    lemma_gathered_more(
                        start,
                        now,
                        steps,
                        prefix@.drop_last(),
                        step,
                        prefix@.last(),
                    );
                    assert(prefix@.drop_last().push(prefix@.last()) =~= prefix@);
                    steps = steps.push(step);
                }
            },
            Err(e) => {
                proof {
                    lemma_gathered_failed(start, now, steps, prefix@, step);
                    steps = steps.push(step);
                }
                return Err(e);
            },
        }
        let ghost now = gen@;
        let (next, Ghost(step)) = next_item::<T5>(gen, &mut prefix);
        match next {
            Ok(_) => {
                proof {
                    lemma_gathered_more(
                        start,
                        now,
                        steps,
                        prefix@.drop_last(),
                        step,
                        prefix@.last(),
                    );
                    assert(prefix@.drop_last().push(prefix@.last()) =~= prefix@);
                    steps = steps.push(step);
                }
            },
            Err(e) => {
                proof {
                    lemma_gathered_failed(start, now, steps, prefix@, step);
                    steps = steps.push(step);
                }
                return Err(e);
            },
        }
        let ghost now = gen@;
        let (next, Ghost(step)) = next_item::<T6>(gen, &mut prefix);
        match next {
            Ok(_) => {
                proof {
                    lemma_gathered_more(
                        start,
                        now,
                        steps,
                        prefix@.drop_last(),
                        step,
                        prefix@.last(),
                    );
                    assert(prefix@.drop_last().push(prefix@.last()) =~= prefix@);
                    steps = steps.push(step);
                }
            },
            Err(e) => {
                proof {
                    lemma_gathered_failed(start, now, steps, prefix@, step);
                    steps = steps.push(step);
                }
                return Err(e);
            },
        }
        Ok(tuple_validator(prefix, 7))
    }
}

impl<
    T0: FogValidate,
    T1: FogValidate,
    T2: FogValidate,
    T3: FogValidate,
    T4: FogValidate,
    T5: FogValidate,
    T6: FogValidate,
    T7: FogValidate,
> FogValidate for (T0, T1, T2, T3, T4, T5, T6, T7) {
    fn origin(opt: bool) -> (marker: String)
        ensures
            marker@ == "Tuple8"@,
    {
        String::from_str("Tuple8")
    }

    fn should_reference(opt: bool) -> (shared: bool)
        ensures
            !shared,
    {
        false
    }

    fn has_opt() -> (differs: bool)
        ensures
            !differs,
    {
        false
    }

    fn validator_name(opt: bool) -> (name: Name)
        ensures
            name@.id == identifier_of(""@, "Tuple8"@),
            name@.type_params.len() == 8,
    {
        proof {
            reveal_strlit("");
            reveal_strlit("Tuple8");
        }
        let mut params: Vec<Name> = Vec::new();
        params.push(T0::validator_name(false));
        params.push(T1::validator_name(false));
        params.push(T2::validator_name(false));
        params.push(T3::validator_name(false));
        params.push(T4::validator_name(false));
        params.push(T5::validator_name(false));
        params.push(T6::validator_name(false));
        params.push(T7::validator_name(false));
        Name::with_types("", "Tuple8", params)
    }

    /// The array with what each of the shapes resolves to, one after the
    /// other. The steps are the resolutions that were made, each as `step_of`
    /// says for its shape: the generator changes as they change it, and the
    /// first error ends the way and is handed on.
    fn validator(gen: &mut SchemaGenerator, opt: bool) -> (validator: Result<
        ValidatorTree,
        SchemaError,
    >)
        ensures
            generator_wf(final(gen)@),
            exists|steps: Seq<Step>|
                {
                    &&& #[trigger] chained(old(gen)@, final(gen)@, steps)
                    &&& steps.len() <= 8
                    &&& 0 < steps.len() ==> step_of::<T0>(steps[0])
                    &&& 1 < steps.len() ==> step_of::<T1>(steps[1])
                    &&& 2 < steps.len() ==> step_of::<T2>(steps[2])
                    &&& 3 < steps.len() ==> step_of::<T3>(steps[3])
                    &&& 4 < steps.len() ==> step_of::<T4>(steps[4])
                    &&& 5 < steps.len() ==> step_of::<T5>(steps[5])
                    &&& 6 < steps.len() ==> step_of::<T6>(steps[6])
                    &&& 7 < steps.len() ==> step_of::<T7>(steps[7])
                    &&& match validator {
                        Ok(ValidatorTree::Array { contains, items, prefix, rules }) => {
                            &&& contains@.len() == 0
                            &&& *items is Any
                            &&& gathered(old(gen)@, final(gen)@, steps, prefix@)
                            &&& prefix@.len() == 8
                            &&& exists|start: fog_pack::validator::ArrayValidator|
                                rules == #[trigger] sized_rules(start, 8)
                        },
                        Ok(_) => false,
                        Err(_) => steps.last().answer == validator,
                    }
                },
    {
        let ghost start = gen@;
        let ghost mut steps: Seq<Step> = Seq::empty();
        let mut prefix: Vec<ValidatorTree> = Vec::new();
        let ghost now = gen@;
        let (next, Ghost(step)) = next_item::<T0>(gen, &mut prefix);
        match next {
            Ok(_) => {
                proof {
                    lemma_gathered_more(
                        start,
                        now,
                        steps,
                        prefix@.drop_last(),
                        step,
                        prefix@.last(),
                    );
                    assert(prefix@.drop_last().push(prefix@.last()) =~= prefix@);
                    steps = steps.push(step);
                }
            },
            Err(e) => {
                proof {
                    lemma_gathered_failed(start, now, steps, prefix@, step);
                    steps = steps.push(step);
                }
                return Err(e);
            },
        }
        let ghost now = gen@;
        let (next, Ghost(step)) = next_item::<T1>(gen, &mut prefix);
        match next {
            Ok(_) => {
                proof {
                    lemma_gathered_more(
                        start,
                        now,
                        steps,
                        prefix@.drop_last(),
                        step,
                        prefix@.last(),
                    );
                    assert(prefix@.drop_last().push(prefix@.last()) =~= prefix@);
                    steps = steps.push(step);
                }
            },
            Err(e) => {
                proof {
                    lemma_gathered_failed(start, now, steps, prefix@, step);
                    steps = steps.push(step);
                }
                return Err(e);
            },
        }
        let ghost now = gen@;
        let (next, Ghost(step)) = next_item::<T2>(gen, &mut prefix);
        match next {
            Ok(_) => {
                proof {
                    lemma_gathered_more(
                        start,
                        now,
                        steps,
                        prefix@.drop_last(),
                        step,
                        prefix@.last(),
                    );
                    assert(prefix@.drop_last().push(prefix@.last()) =~= prefix@);
                    steps = steps.push(step);
                }
            },
            Err(e) => {
                proof {
                    lemma_gathered_failed(start, now, steps, prefix@, step);
                    steps = steps.push(step);
                }
                return Err(e);
            },
        }
        let ghost now = gen@;
        let (next, Ghost(step)) = next_item::<T3>(gen, &mut prefix);
        match next {
            Ok(_) => {
                proof {
                    lemma_gathered_more(
                        start,
                        now,
                        steps,
                        prefix@.drop_last(),
                        step,
                        prefix@.last(),
                    );
                    assert(prefix@.drop_last().push(prefix@.last()) =~= prefix@);
                    steps = steps.push(step);
                }
            },
            Err(e) => {
                proof {
                    lemma_gathered_failed(start, now, steps, prefix@, step);
                    steps = steps.push(step);
                }
                return Err(e);
            },
        }
        let ghost now = gen@;
        let (next, Ghost(step)) = next_item::<T4>(gen, &mut prefix);
        match next {
            Ok(_) => {
                proof {
                    lemma_gathered_more(
                        start,
                        now,
                        steps,
                        prefix@.drop_last(),
                        step,
                        prefix@.last(),
                    );
                    assert(prefix@.drop_last().push(prefix@.last()) =~= prefix@);
                    steps = steps.push(step);
                }
            },
            Err(e) => {
                proof {
                    lemma_gathered_failed(start, now, steps, prefix@, step);
                    steps = steps.push(step);
                }
                return Err(e);
            },
        }
        let ghost now = gen@;
        let (next, Ghost(step)) = next_item::<T5>(gen, &mut prefix);
        match next {
            Ok(_) => {
                proof {
                    lemma_gathered_more(
                        start,
                        now,
                        steps,
                        prefix@.drop_last(),
                        step,
                        prefix@.last(),
                    );
                    assert(prefix@.drop_last().push(prefix@.last()) =~= prefix@);
                    steps = steps.push(step);
                }
            },
            Err(e) => {
                proof {
                    lemma_gathered_failed(start, now, steps, prefix@, step);
                    steps = steps.push(step);
                }
                return Err(e);
            },
        }
        let ghost now = gen@;
        let (next, Ghost(step)) = next_item::<T6>(gen, &mut prefix);
        match next {
            Ok(_) => {
                proof {
                    lemma_gathered_more(
                        start,
                        now,
                        steps,
                        prefix@.drop_last(),
                        step,
                        prefix@.last(),
                    );
                    assert(prefix@.drop_last().push(prefix@.last()) =~= prefix@);
                    steps = steps.push(step);
                }
            },
            Err(e) => {
                proof {
                    lemma_gathered_failed(start, now, steps, prefix@, step);
                    steps = steps.push(step);
                }
                return Err(e);
            },
        }
        let ghost now = gen@;
        let (next, Ghost(step)) = next_item::<T7>(gen, &mut prefix);
        match next {
            Ok(_) => {
                proof {
                    lemma_gathered_more(
                        start,
                        now,
                        steps,
                        prefix@.drop_last(),
                        step,
                        prefix@.last(),
                    );
                    assert(prefix@.drop_last().push(prefix@.last()) =~= prefix@);
                    steps = steps.push(step);
                }
            },
            Err(e) => {
                proof {
                    lemma_gathered_failed(start, now, steps, prefix@, step);
                    steps = steps.push(step);
                }
                return Err(e);
            },
        }
        Ok(tuple_validator(prefix, 8))
    }
}

impl<
    T0: FogValidate,
    T1: FogValidate,
    T2: FogValidate,
    T3: FogValidate,
    T4: FogValidate,
    T5: FogValidate,
    T6: FogValidate,
    T7: FogValidate,
    T8: FogValidate,
> FogValidate for (T0, T1, T2, T3, T4, T5, T6, T7, T8) {
    fn origin(opt: bool) -> (marker: String)
        ensures
            marker@ == "Tuple9"@,
    {
        String::from_str("Tuple9")
    }

    fn should_reference(opt: bool) -> (shared: bool)
        ensures
            !shared,
    {
        false
    }

    fn has_opt() -> (differs: bool)
        ensures
            !differs,
    {
        false
    }

    fn validator_name(opt: bool) -> (name: Name)
        ensures
            name@.id == identifier_of(""@, "Tuple9"@),
            name@.type_params.len() == 9,
    {
        proof {
            reveal_strlit("");
            reveal_strlit("Tuple9");
        }
        let mut params: Vec<Name> = Vec::new();
        params.push(T0::validator_name(false));
        params.push(T1::validator_name(false));
        params.push(T2::validator_name(false));
        params.push(T3::validator_name(false));
        params.push(T4::validator_name(false));
        params.push(T5::validator_name(false));
        params.push(T6::validator_name(false));
        params.push(T7::validator_name(false));
        params.push(T8::validator_name(false));
        Name::with_types("", "Tuple9", params)
    }

    /// The array with what each of the shapes resolves to, one after the
    /// other. The steps are the resolutions that were made, each as `step_of`
    /// says for its shape: the generator changes as they change it, and the
    /// first error ends the way and is handed on.
    fn validator(gen: &mut SchemaGenerator, opt: bool) -> (validator: Result<
        ValidatorTree,
        SchemaError,
    >)
        ensures
            generator_wf(final(gen)@),
            exists|steps: Seq<Step>|
                {
                    &&& #[trigger] chained(old(gen)@, final(gen)@, steps)
                    &&& steps.len() <= 9
                    &&& 0 < steps.len() ==> step_of::<T0>(steps[0])
                    &&& 1 < steps.len() ==> step_of::<T1>(steps[1])
                    &&& 2 < steps.len() ==> step_of::<T2>(steps[2])
                    &&& 3 < steps.len() ==> step_of::<T3>(steps[3])
                    &&& 4 < steps.len() ==> step_of::<T4>(steps[4])
                    &&& 5 < steps.len() ==> step_of::<T5>(steps[5])
                    &&& 6 < steps.len() ==> step_of::<T6>(steps[6])
                    &&& 7 < steps.len() ==> step_of::<T7>(steps[7])
                    &&& 8 < steps.len() ==> step_of::<T8>(steps[8])
                    &&& match validator {
                        Ok(ValidatorTree::Array { contains, items, prefix, rules }) => {
                            &&& contains@.len() == 0
                            &&& *items is Any
                            &&& gathered(old(gen)@, final(gen)@, steps, prefix@)
                            &&& prefix@.len() == 9
                            &&& exists|start: fog_pack::validator::ArrayValidator|
                                rules == #[trigger] sized_rules(start, 9)
                        },
                        Ok(_) => false,
                        Err(_) => steps.last().answer == validator,
                    }
                },
    {
        let ghost start = gen@;
        let ghost mut steps: Seq<Step> = Seq::empty();
        let mut prefix: Vec<ValidatorTree> = Vec::new();
        let ghost now = gen@;
        let (next, Ghost(step)) = next_item::<T0>(gen, &mut prefix);
        match next {
            Ok(_) => {
                proof {
                    lemma_gathered_more(
                        start,
                        now,
                        steps,
                        prefix@.drop_last(),
                        step,
                        prefix@.last(),
                    );
                    assert(prefix@.drop_last().push(prefix@.last()) =~= prefix@);
                    steps = steps.push(step);
                }
            },
            Err(e) => {
                proof {
                    lemma_gathered_failed(start, now, steps, prefix@, step);
                    steps = steps.push(step);
                }
                return Err(e);
            },
        }
        let ghost now = gen@;
        let (next, Ghost(step)) = next_item::<T1>(gen, &mut prefix);
        match next {
            Ok(_) => {
                proof {
                    lemma_gathered_more(
                        start,
                        now,
                        steps,
                        prefix@.drop_last(),
                        step,
                        prefix@.last(),
                    );
                    assert(prefix@.drop_last().push(prefix@.last()) =~= prefix@);
                    steps = steps.push(step);
                }
            },
            Err(e) => {
                proof {
                    lemma_gathered_failed(start, now, steps, prefix@, step);
                    steps = steps.push(step);
                }
                return Err(e);
            },
        }
        let ghost now = gen@;
        let (next, Ghost(step)) = next_item::<T2>(gen, &mut prefix);
        match next {
            Ok(_) => {
                proof {
                    lemma_gathered_more(
                        start,
                        now,
                        steps,
                        prefix@.drop_last(),
                        step,
                        prefix@.last(),
                    );
                    assert(prefix@.drop_last().push(prefix@.last()) =~= prefix@);
                    steps = steps.push(step);
                }
            },
            Err(e) => {
                proof {
                    lemma_gathered_failed(start, now, steps, prefix@, step);
                    steps = steps.push(step);
                }
                return Err(e);
            },
        }
        let ghost now = gen@;
        let (next, Ghost(step)) = next_item::<T3>(gen, &mut prefix);
        match next {
            Ok(_) => {
                proof {
                    lemma_gathered_more(
                        start,
                        now,
                        steps,
                        prefix@.drop_last(),
                        step,
                        prefix@.last(),
                    );
                    assert(prefix@.drop_last().push(prefix@.last()) =~= prefix@);
                    steps = steps.push(step);
                }
            },
            Err(e) => {
                proof {
                    lemma_gathered_failed(start, now, steps, prefix@, step);
                    steps = steps.push(step);
                }
                return Err(e);
            },
        }
        let ghost now = gen@;
        let (next, Ghost(step)) = next_item::<T4>(gen, &mut prefix);
        match next {
            Ok(_) => {
                proof {
                    lemma_gathered_more(
                        start,
                        now,
                        steps,
                        prefix@.drop_last(),
                        step,
                        prefix@.last(),
                    );
                    assert(prefix@.drop_last().push(prefix@.last()) =~= prefix@);
                    steps = steps.push(step);
                }
            },
            Err(e) => {
                proof {
                    lemma_gathered_failed(start, now, steps, prefix@, step);
                    steps = steps.push(step);
                }
                return Err(e);
            },
        }
        let ghost now = gen@;
        let (next, Ghost(step)) = next_item::<T5>(gen, &mut prefix);
        match next {
            Ok(_) => {
                proof {
                    lemma_gathered_more(
                        start,
                        now,
                        steps,
                        prefix@.drop_last(),
                        step,
                        prefix@.last(),
                    );
                    assert(prefix@.drop_last().push(prefix@.last()) =~= prefix@);
                    steps = steps.push(step);
                }
            },
            Err(e) => {
                proof {
                    lemma_gathered_failed(start, now, steps, prefix@, step);
                    steps = steps.push(step);
                }
                return Err(e);
            },
        }
        let ghost now = gen@;
        let (next, Ghost(step)) = next_item::<T6>(gen, &mut prefix);
        match next {
            Ok(_) => {
                proof {
                    lemma_gathered_more(
                        start,
                        now,
                        steps,
                        prefix@.drop_last(),
                        step,
                        prefix@.last(),
                    );
                    assert(prefix@.drop_last().push(prefix@.last()) =~= prefix@);
                    steps = steps.push(step);
                }
            },
            Err(e) => {
                proof {
                    lemma_gathered_failed(start, now, steps, prefix@, step);
                    steps = steps.push(step);
                }
                return Err(e);
            },
        }
        let ghost now = gen@;
        let (next, Ghost(step)) = next_item::<T7>(gen, &mut prefix);
        match next {
            Ok(_) => {
                proof {
                    lemma_gathered_more(
                        start,
                        now,
                        steps,
                        prefix@.drop_last(),
                        step,
                        prefix@.last(),
                    );
                    assert(prefix@.drop_last().push(prefix@.last()) =~= prefix@);
                    steps = steps.push(step);
                }
            },
            Err(e) => {
                proof {
                    lemma_gathered_failed(start, now, steps, prefix@, step);
                    steps = steps.push(step);
                }
                return Err(e);
            },
        }
        let ghost now = gen@;
        let (next, Ghost(step)) = next_item::<T8>(gen, &mut prefix);
        match next {
            Ok(_) => {
                proof {
                    lemma_gathered_more(
                        start,
                        now,
                        steps,
                        prefix@.drop_last(),
                        step,
                        prefix@.last(),
                    );
                    assert(prefix@.drop_last().push(prefix@.last()) =~= prefix@);
                    steps = steps.push(step);
                }
            },
            Err(e) => {
                proof {
                    lemma_gathered_failed(start, now, steps, prefix@, step);
                    steps = steps.push(step);
                }
                return Err(e);
            },
        }
        Ok(tuple_validator(prefix, 9))
    }
}

impl<
    T0: FogValidate,
    T1: FogValidate,
    T2: FogValidate,
    T3: FogValidate,
    T4: FogValidate,
    T5: FogValidate,
    T6: FogValidate,
    T7: FogValidate,
    T8: FogValidate,
    T9: FogValidate,
> FogValidate for (T0, T1, T2, T3, T4, T5, T6, T7, T8, T9) {
    fn origin(opt: bool) -> (marker: String)
        ensures
            marker@ == "Tuple10"@,
    {
        String::from_str("Tuple10")
    }

    fn should_reference(opt: bool) -> (shared: bool)
        ensures
            !shared,
    {
        false
    }

    fn has_opt() -> (differs: bool)
        ensures
            !differs,
    {
        false
    }

    fn validator_name(opt: bool) -> (name: Name)
        ensures
            name@.id == identifier_of(""@, "Tuple10"@),
            name@.type_params.len() == 10,
    {
        proof {
            reveal_strlit("");
            reveal_strlit("Tuple10");
        }
        let mut params: Vec<Name> = Vec::new();
        params.push(T0::validator_name(false));
        params.push(T1::validator_name(false));
        params.push(T2::validator_name(false));
        params.push(T3::validator_name(false));
        params.push(T4::validator_name(false));
        params.push(T5::validator_name(false));
        params.push(T6::validator_name(false));
        params.push(T7::validator_name(false));
        params.push(T8::validator_name(false));
        params.push(T9::validator_name(false));
        Name::with_types("", "Tuple10", params)
    }

    /// The array with what each of the shapes resolves to, one after the
    /// other. The steps are the resolutions that were made, each as `step_of`
    /// says for its shape: the generator changes as they change it, and the
    /// first error ends the way and is handed on.
    fn validator(gen: &mut SchemaGenerator, opt: bool) -> (validator: Result<
        ValidatorTree,
        SchemaError,
    >)
        ensures
            generator_wf(final(gen)@),
            exists|steps: Seq<Step>|
                {
                    &&& #[trigger] chained(old(gen)@, final(gen)@, steps)
                    &&& steps.len() <= 10
                    &&& 0 < steps.len() ==> step_of::<T0>(steps[0])
                    &&& 1 < steps.len() ==> step_of::<T1>(steps[1])
                    &&& 2 < steps.len() ==> step_of::<T2>(steps[2])
                    &&& 3 < steps.len() ==> step_of::<T3>(steps[3])
                    &&& 4 < steps.len() ==> step_of::<T4>(steps[4])
                    &&& 5 < steps.len() ==> step_of::<T5>(steps[5])
                    &&& 6 < steps.len() ==> step_of::<T6>(steps[6])
                    &&& 7 < steps.len() ==> step_of::<T7>(steps[7])
                    &&& 8 < steps.len() ==> step_of::<T8>(steps[8])
                    &&& 9 < steps.len() ==> step_of::<T9>(steps[9])
                    &&& match validator {
                        Ok(ValidatorTree::Array { contains, items, prefix, rules }) => {
                            &&& contains@.len() == 0
                            &&& *items is Any
                            &&& gathered(old(gen)@, final(gen)@, steps, prefix@)
                            &&& prefix@.len() == 10
                            &&& exists|start: fog_pack::validator::ArrayValidator|
                                rules == #[trigger] sized_rules(start, 10)
                        },
                        Ok(_) => false,
                        Err(_) => steps.last().answer == validator,
                    }
                },
    {
        let ghost start = gen@;
        let ghost mut steps: Seq<Step> = Seq::empty();
        let mut prefix: Vec<ValidatorTree> = Vec::new();
        let ghost now = gen@;
        let (next, Ghost(step)) = next_item::<T0>(gen, &mut prefix);
        match next {
            Ok(_) => {
                proof {
                    lemma_gathered_more(
                        start,
                        now,
                        steps,
                        prefix@.drop_last(),
                        step,
                        prefix@.last(),
                    );
                    assert(prefix@.drop_last().push(prefix@.last()) =~= prefix@);
                    steps = steps.push(step);
                }
            },
            Err(e) => {
                proof {
                    lemma_gathered_failed(start, now, steps, prefix@, step);
                    steps = steps.push(step);
                }
                return Err(e);
            },
        }
        let ghost now = gen@;
        let (next, Ghost(step)) = next_item::<T1>(gen, &mut prefix);
        match next {
            Ok(_) => {
                proof {
                    lemma_gathered_more(
                        start,
                        now,
                        steps,
                        prefix@.drop_last(),
                        step,
                        prefix@.last(),
                    );
                    assert(prefix@.drop_last().push(prefix@.last()) =~= prefix@);
                    steps = steps.push(step);
                }
            },
            Err(e) => {
                proof {
                    lemma_gathered_failed(start, now, steps, prefix@, step);
                    steps = steps.push(step);
                }
                return Err(e);
            },
        }
        let ghost now = gen@;
        let (next, Ghost(step)) = next_item::<T2>(gen, &mut prefix);
        match next {
            Ok(_) => {
                proof {
                    lemma_gathered_more(
                        start,
                        now,
                        steps,
                        prefix@.drop_last(),
                        step,
                        prefix@.last(),
                    );
                    assert(prefix@.drop_last().push(prefix@.last()) =~= prefix@);
                    steps = steps.push(step);
                }
            },
            Err(e) => {
                proof {
                    lemma_gathered_failed(start, now, steps, prefix@, step);
                    steps = steps.push(step);
                }
                return Err(e);
            },
        }
        let ghost now = gen@;
        let (next, Ghost(step)) = next_item::<T3>(gen, &mut prefix);
        match next {
            Ok(_) => {
                proof {
                    lemma_gathered_more(
                        start,
                        now,
                        steps,
                        prefix@.drop_last(),
                        step,
                        prefix@.last(),
                    );
                    assert(prefix@.drop_last().push(prefix@.last()) =~= prefix@);
                    steps = steps.push(step);
                }
            },
            Err(e) => {
                proof {
                    lemma_gathered_failed(start, now, steps, prefix@, step);
                    steps = steps.push(step);
                }
                return Err(e);
            },
        }
        let ghost now = gen@;
        let (next, Ghost(step)) = next_item::<T4>(gen, &mut prefix);
        match next {
            Ok(_) => {
                proof {
                    lemma_gathered_more(
                        start,
                        now,
                        steps,
                        prefix@.drop_last(),
                        step,
                        prefix@.last(),
                    );
                    assert(prefix@.drop_last().push(prefix@.last()) =~= prefix@);
                    steps = steps.push(step);
                }
            },
            Err(e) => {
                proof {
                    lemma_gathered_failed(start, now, steps, prefix@, step);
                    steps = steps.push(step);
                }
                return Err(e);
            },
        }
        let ghost now = gen@;
        let (next, Ghost(step)) = next_item::<T5>(gen, &mut prefix);
        match next {
            Ok(_) => {
                proof {
                    lemma_gathered_more(
                        start,
                        now,
                        steps,
                        prefix@.drop_last(),
                        step,
                        prefix@.last(),
                    );
                    assert(prefix@.drop_last().push(prefix@.last()) =~= prefix@);
                    steps = steps.push(step);
                }
            },
            Err(e) => {
                proof {
                    lemma_gathered_failed(start, now, steps, prefix@, step);
                    steps = steps.push(step);
                }
                return Err(e);
            },
        }
        let ghost now = gen@;
        let (next, Ghost(step)) = next_item::<T6>(gen, &mut prefix);
        match next {
            Ok(_) => {
                proof {
                    lemma_gathered_more(
                        start,
                        now,
                        steps,
                        prefix@.drop_last(),
                        step,
                        prefix@.last(),
                    );
                    assert(prefix@.drop_last().push(prefix@.last()) =~= prefix@);
                    steps = steps.push(step);
                }
            },
            Err(e) => {
                proof {
                    lemma_gathered_failed(start, now, steps, prefix@, step);
                    steps = steps.push(step);
                }
                return Err(e);
            },
        }
        let ghost now = gen@;
        let (next, Ghost(step)) = next_item::<T7>(gen, &mut prefix);
        match next {
            Ok(_) => {
                proof {
                    lemma_gathered_more(
                        start,
                        now,
                        steps,
                        prefix@.drop_last(),
                        step,
                        prefix@.last(),
                    );
                    assert(prefix@.drop_last().push(prefix@.last()) =~= prefix@);
                    steps = steps.push(step);
                }
            },
            Err(e) => {
                proof {
                    lemma_gathered_failed(start, now, steps, prefix@, step);
                    steps = steps.push(step);
                }
                return Err(e);
            },
        }
        let ghost now = gen@;
        let (next, Ghost(step)) = next_item::<T8>(gen, &mut prefix);
        match next {
            Ok(_) => {
                proof {
                    lemma_gathered_more(
                        start,
                        now,
                        steps,
                        prefix@.drop_last(),
                        step,
                        prefix@.last(),
                    );
                    assert(prefix@.drop_last().push(prefix@.last()) =~= prefix@);
                    steps = steps.push(step);
                }
            },
            Err(e) => {
                proof {
                    lemma_gathered_failed(start, now, steps, prefix@, step);
                    steps = steps.push(step);
                }
                return Err(e);
            },
        }
        let ghost now = gen@;
        let (next, Ghost(step)) = next_item::<T9>(gen, &mut prefix);
        match next {
            Ok(_) => {
                proof {
                    lemma_gathered_more(
                        start,
                        now,
                        steps,
                        prefix@.drop_last(),
                        step,
                        prefix@.last(),
                    );
                    assert(prefix@.drop_last().push(prefix@.last()) =~= prefix@);
                    steps = steps.push(step);
                }
            },
            Err(e) => {
                proof {
                    lemma_gathered_failed(start, now, steps, prefix@, step);
                    steps = steps.push(step);
                }
                return Err(e);
            },
        }
        Ok(tuple_validator(prefix, 10))
    }
}

impl<
    T0: FogValidate,
    T1: FogValidate,
    T2: FogValidate,
    T3: FogValidate,
    T4: FogValidate,
    T5: FogValidate,
    T6: FogValidate,
    T7: FogValidate,
    T8: FogValidate,
    T9: FogValidate,
    T10: FogValidate,
> FogValidate for (T0, T1, T2, T3, T4, T5, T6, T7, T8, T9, T10) {
    fn origin(opt: bool) -> (marker: String)
        ensures
            marker@ == "Tuple11"@,
    {
        String::from_str("Tuple11")
    }

    fn should_reference(opt: bool) -> (shared: bool)
        ensures
            !shared,
    {
        false
    }

    fn has_opt() -> (differs: bool)
        ensures
            !differs,
    {
        false
    }

    fn validator_name(opt: bool) -> (name: Name)
        ensures
            name@.id == identifier_of(""@, "Tuple11"@),
            name@.type_params.len() == 11,
    {
        proof {
            reveal_strlit("");
            reveal_strlit("Tuple11");
        }
        let mut params: Vec<Name> = Vec::new();
        params.push(T0::validator_name(false));
        params.push(T1::validator_name(false));
        params.push(T2::validator_name(false));
        params.push(T3::validator_name(false));
        params.push(T4::validator_name(false));
        params.push(T5::validator_name(false));
        params.push(T6::validator_name(false));
        params.push(T7::validator_name(false));
        params.push(T8::validator_name(false));
        params.push(T9::validator_name(false));
        params.push(T10::validator_name(false));
        Name::with_types("", "Tuple11", params)
    }

    /// The array with what each of the shapes resolves to, one after the
    /// other. The steps are the resolutions that were made, each as `step_of`
    /// says for its shape: the generator changes as they change it, and the
    /// first error ends the way and is handed on.
    fn validator(gen: &mut SchemaGenerator, opt: bool) -> (validator: Result<
        ValidatorTree,
        SchemaError,
    >)
        ensures
            generator_wf(final(gen)@),
            exists|steps: Seq<Step>|
                {
                    &&& #[trigger] chained(old(gen)@, final(gen)@, steps)
                    &&& steps.len() <= 11
                    &&& 0 < steps.len() ==> step_of::<T0>(steps[0])
                    &&& 1 < steps.len() ==> step_of::<T1>(steps[1])
                    &&& 2 < steps.len() ==> step_of::<T2>(steps[2])
                    &&& 3 < steps.len() ==> step_of::<T3>(steps[3])
                    &&& 4 < steps.len() ==> step_of::<T4>(steps[4])
                    &&& 5 < steps.len() ==> step_of::<T5>(steps[5])
                    &&& 6 < steps.len() ==> step_of::<T6>(steps[6])
                    &&& 7 < steps.len() ==> step_of::<T7>(steps[7])
                    &&& 8 < steps.len() ==> step_of::<T8>(steps[8])
                    &&& 9 < steps.len() ==> step_of::<T9>(steps[9])
                    &&& 10 < steps.len() ==> step_of::<T10>(steps[10])
                    &&& match validator {
                        Ok(ValidatorTree::Array { contains, items, prefix, rules }) => {
                            &&& contains@.len() == 0
                            &&& *items is Any
                            &&& gathered(old(gen)@, final(gen)@, steps, prefix@)
                            &&& prefix@.len() == 11
                            &&& exists|start: fog_pack::validator::ArrayValidator|
                                rules == #[trigger] sized_rules(start, 11)
                        },
                        Ok(_) => false,
                        Err(_) => steps.last().answer == validator,
                    }
                },
    {
        let ghost start = gen@;
        let ghost mut steps: Seq<Step> = Seq::empty();
        let mut prefix: Vec<ValidatorTree> = Vec::new();
        let ghost now = gen@;
        let (next, Ghost(step)) = next_item::<T0>(gen, &mut prefix);
        match next {
            Ok(_) => {
                proof {
                    lemma_gathered_more(
                        start,
                        now,
                        steps,
                        prefix@.drop_last(),
                        step,
                        prefix@.last(),
                    );
                    assert(prefix@.drop_last().push(prefix@.last()) =~= prefix@);
                    steps = steps.push(step);
                }
            },
            Err(e) => {
                proof {
                    lemma_gathered_failed(start, now, steps, prefix@, step);
                    steps = steps.push(step);
                }
                return Err(e);
            },
        }
        let ghost now = gen@;
        let (next, Ghost(step)) = next_item::<T1>(gen, &mut prefix);
        match next {
            Ok(_) => {
                proof {
                    lemma_gathered_more(
                        start,
                        now,
                        steps,
                        prefix@.drop_last(),
                        step,
                        prefix@.last(),
                    );
                    assert(prefix@.drop_last().push(prefix@.last()) =~= prefix@);
                    steps = steps.push(step);
                }
            },
            Err(e) => {
                proof {
                    lemma_gathered_failed(start, now, steps, prefix@, step);
                    steps = steps.push(step);
                }
                return Err(e);
            },
        }
        let ghost now = gen@;
        let (next, Ghost(step)) = next_item::<T2>(gen, &mut prefix);
        match next {
            Ok(_) => {
                proof {
                    lemma_gathered_more(
                        start,
                        now,
                        steps,
                        prefix@.drop_last(),
                        step,
                        prefix@.last(),
                    );
                    assert(prefix@.drop_last().push(prefix@.last()) =~= prefix@);
                    steps = steps.push(step);
                }
            },
            Err(e) => {
                proof {
                    lemma_gathered_failed(start, now, steps, prefix@, step);
                    steps = steps.push(step);
                }
                return Err(e);
            },
        }
        let ghost now = gen@;
        let (next, Ghost(step)) = next_item::<T3>(gen, &mut prefix);
        match next {
            Ok(_) => {
                proof {
                    lemma_gathered_more(
                        start,
                        now,
                        steps,
                        prefix@.drop_last(),
                        step,
                        prefix@.last(),
                    );
                    assert(prefix@.drop_last().push(prefix@.last()) =~= prefix@);
                    steps = steps.push(step);
                }
            },
            Err(e) => {
                proof {
                    lemma_gathered_failed(start, now, steps, prefix@, step);
                    steps = steps.push(step);
                }
                return Err(e);
            },
        }
        let ghost now = gen@;
        let (next, Ghost(step)) = next_item::<T4>(gen, &mut prefix);
        match next {
            Ok(_) => {
                proof {
                    lemma_gathered_more(
                        start,
                        now,
                        steps,
                        prefix@.drop_last(),
                        step,
                        prefix@.last(),
                    );
                    assert(prefix@.drop_last().push(prefix@.last()) =~= prefix@);
                    steps = steps.push(step);
                }
            },
            Err(e) => {
                proof {
                    lemma_gathered_failed(start, now, steps, prefix@, step);
                    steps = steps.push(step);
                }
                return Err(e);
            },
        }
        let ghost now = gen@;
        let (next, Ghost(step)) = next_item::<T5>(gen, &mut prefix);
        match next {
            Ok(_) => {
                proof {
                    lemma_gathered_more(
                        start,
                        now,
                        steps,
                        prefix@.drop_last(),
                        step,
                        prefix@.last(),
                    );
                    assert(prefix@.drop_last().push(prefix@.last()) =~= prefix@);
                    steps = steps.push(step);
                }
            },
            Err(e) => {
                proof {
                    lemma_gathered_failed(start, now, steps, prefix@, step);
                    steps = steps.push(step);
                }
                return Err(e);
            },
        }
        let ghost now = gen@;
        let (next, Ghost(step)) = next_item::<T6>(gen, &mut prefix);
        match next {
            Ok(_) => {
                proof {
                    lemma_gathered_more(
                        start,
                        now,
                        steps,
                        prefix@.drop_last(),
                        step,
                        prefix@.last(),
                    );
                    assert(prefix@.drop_last().push(prefix@.last()) =~= prefix@);
                    steps = steps.push(step);
                }
            },
            Err(e) => {
                proof {
                    lemma_gathered_failed(start, now, steps, prefix@, step);
                    steps = steps.push(step);
                }
                return Err(e);
            },
        }
        let ghost now = gen@;
        let (next, Ghost(step)) = next_item::<T7>(gen, &mut prefix);
        match next {
            Ok(_) => {
                proof {
                    lemma_gathered_more(
                        start,
                        now,
                        steps,
                        prefix@.drop_last(),
                        step,
                        prefix@.last(),
                    );
                    assert(prefix@.drop_last().push(prefix@.last()) =~= prefix@);
                    steps = steps.push(step);
                }
            },
            Err(e) => {
                proof {
                    lemma_gathered_failed(start, now, steps, prefix@, step);
                    steps = steps.push(step);
                }
                return Err(e);
            },
        }
        let ghost now = gen@;
        let (next, Ghost(step)) = next_item::<T8>(gen, &mut prefix);
        match next {
            Ok(_) => {
                proof {
                    lemma_gathered_more(
                        start,
                        now,
                        steps,
                        prefix@.drop_last(),
                        step,
                        prefix@.last(),
                    );
                    assert(prefix@.drop_last().push(prefix@.last()) =~= prefix@);
                    steps = steps.push(step);
                }
            },
            Err(e) => {
                proof {
                    lemma_gathered_failed(start, now, steps, prefix@, step);
                    steps = steps.push(step);
                }
                return Err(e);
            },
        }
        let ghost now = gen@;
        let (next, Ghost(step)) = next_item::<T9>(gen, &mut prefix);
        match next {
            Ok(_) => {
                proof {
                    lemma_gathered_more(
                        start,
                        now,
                        steps,
                        prefix@.drop_last(),
                        step,
                        prefix@.last(),
                    );
                    assert(prefix@.drop_last().push(prefix@.last()) =~= prefix@);
                    steps = steps.push(step);
                }
            },
            Err(e) => {
                proof {
                    lemma_gathered_failed(start, now, steps, prefix@, step);
                    steps = steps.push(step);
                }
                return Err(e);
            },
        }
        let ghost now = gen@;
        let (next, Ghost(step)) = next_item::<T10>(gen, &mut prefix);
        match next {
            Ok(_) => {
                proof {
                    lemma_gathered_more(
                        start,
                        now,
                        steps,
                        prefix@.drop_last(),
                        step,
                        prefix@.last(),
                    );
                    assert(prefix@.drop_last().push(prefix@.last()) =~= prefix@);
                    steps = steps.push(step);
                }
            },
            Err(e) => {
                proof {
                    lemma_gathered_failed(start, now, steps, prefix@, step);
                    steps = steps.push(step);
                }
                return Err(e);
            },
        }
        Ok(tuple_validator(prefix, 11))
    }
}

impl<
    T0: FogValidate,
    T1: FogValidate,
    T2: FogValidate,
    T3: FogValidate,
    T4: FogValidate,
    T5: FogValidate,
    T6: FogValidate,
    T7: FogValidate,
    T8: FogValidate,
    T9: FogValidate,
    T10: FogValidate,
    T11: FogValidate,
> FogValidate for (T0, T1, T2, T3, T4, T5, T6, T7, T8, T9, T10, T11) {
    fn origin(opt: bool) -> (marker: String)
        ensures
            marker@ == "Tuple12"@,
    {
        String::from_str("Tuple12")
    }

    fn should_reference(opt: bool) -> (shared: bool)
        ensures
            !shared,
    {
        false
    }

    fn has_opt() -> (differs: bool)
        ensures
            !differs,
    {
        false
    }

    fn validator_name(opt: bool) -> (name: Name)
        ensures
            name@.id == identifier_of(""@, "Tuple12"@),
            name@.type_params.len() == 12,
    {
        proof {
            reveal_strlit("");
            reveal_strlit("Tuple12");
        }
        let mut params: Vec<Name> = Vec::new();
        params.push(T0::validator_name(false));
        params.push(T1::validator_name(false));
        params.push(T2::validator_name(false));
        params.push(T3::validator_name(false));
        params.push(T4::validator_name(false));
        params.push(T5::validator_name(false));
        params.push(T6::validator_name(false));
        params.push(T7::validator_name(false));
        params.push(T8::validator_name(false));
        params.push(T9::validator_name(false));
        params.push(T10::validator_name(false));
        params.push(T11::validator_name(false));
        Name::with_types("", "Tuple12", params)
    }

    /// The array with what each of the shapes resolves to, one after the
    /// other. The steps are the resolutions that were made, each as `step_of`
    /// says for its shape: the generator changes as they change it, and the
    /// first error ends the way and is handed on.
    fn validator(gen: &mut SchemaGenerator, opt: bool) -> (validator: Result<
        ValidatorTree,
        SchemaError,
    >)
        ensures
            generator_wf(final(gen)@),
            exists|steps: Seq<Step>|
                {
                    &&& #[trigger] chained(old(gen)@, final(gen)@, steps)
                    &&& steps.len() <= 12
                    &&& 0 < steps.len() ==> step_of::<T0>(steps[0])
                    &&& 1 < steps.len() ==> step_of::<T1>(steps[1])
                    &&& 2 < steps.len() ==> step_of::<T2>(steps[2])
                    &&& 3 < steps.len() ==> step_of::<T3>(steps[3])
                    &&& 4 < steps.len() ==> step_of::<T4>(steps[4])
                    &&& 5 < steps.len() ==> step_of::<T5>(steps[5])
                    &&& 6 < steps.len() ==> step_of::<T6>(steps[6])
                    &&& 7 < steps.len() ==> step_of::<T7>(steps[7])
                    &&& 8 < steps.len() ==> step_of::<T8>(steps[8])
                    &&& 9 < steps.len() ==> step_of::<T9>(steps[9])
                    &&& 10 < steps.len() ==> step_of::<T10>(steps[10])
                    &&& 11 < steps.len() ==> step_of::<T11>(steps[11])
                    &&& match validator {
                        Ok(ValidatorTree::Array { contains, items, prefix, rules }) => {
                            &&& contains@.len() == 0
                            &&& *items is Any
                            &&& gathered(old(gen)@, final(gen)@, steps, prefix@)
                            &&& prefix@.len() == 12
                            &&& exists|start: fog_pack::validator::ArrayValidator|
                                rules == #[trigger] sized_rules(start, 12)
                        },
                        Ok(_) => false,
                        Err(_) => steps.last().answer == validator,
                    }
                },
    {
        let ghost start = gen@;
        let ghost mut steps: Seq<Step> = Seq::empty();
        let mut prefix: Vec<ValidatorTree> = Vec::new();
        let ghost now = gen@;
        let (next, Ghost(step)) = next_item::<T0>(gen, &mut prefix);
        match next {
            Ok(_) => {
                proof {
                    lemma_gathered_more(
                        start,
                        now,
                        steps,
                        prefix@.drop_last(),
                        step,
                        prefix@.last(),
                    );
                    assert(prefix@.drop_last().push(prefix@.last()) =~= prefix@);
                    steps = steps.push(step);
                }
            },
            Err(e) => {
                proof {
                    lemma_gathered_failed(start, now, steps, prefix@, step);
                    steps = steps.push(step);
                }
                return Err(e);
            },
        }
        let ghost now = gen@;
        let (next, Ghost(step)) = next_item::<T1>(gen, &mut prefix);
        match next {
            Ok(_) => {
                proof {
                    lemma_gathered_more(
                        start,
                        now,
                        steps,
                        prefix@.drop_last(),
                        step,
                        prefix@.last(),
                    );
                    assert(prefix@.drop_last().push(prefix@.last()) =~= prefix@);
                    steps = steps.push(step);
                }
            },
            Err(e) => {
                proof {
                    lemma_gathered_failed(start, now, steps, prefix@, step);
                    steps = steps.push(step);
                }
                return Err(e);
            },
        }
        let ghost now = gen@;
        let (next, Ghost(step)) = next_item::<T2>(gen, &mut prefix);
        match next {
            Ok(_) => {
                proof {
                    lemma_gathered_more(
                        start,
                        now,
                        steps,
                        prefix@.drop_last(),
                        step,
                        prefix@.last(),
                    );
                    assert(prefix@.drop_last().push(prefix@.last()) =~= prefix@);
                    steps = steps.push(step);
                }
            },
            Err(e) => {
                proof {
                    lemma_gathered_failed(start, now, steps, prefix@, step);
                    steps = steps.push(step);
                }
                return Err(e);
            },
        }
        let ghost now = gen@;
        let (next, Ghost(step)) = next_item::<T3>(gen, &mut prefix);
        match next {
            Ok(_) => {
                proof {
                    lemma_gathered_more(
                        start,
                        now,
                        steps,
                        prefix@.drop_last(),
                        step,
                        prefix@.last(),
                    );
                    assert(prefix@.drop_last().push(prefix@.last()) =~= prefix@);
                    steps = steps.push(step);
                }
            },
            Err(e) => {
                proof {
                    lemma_gathered_failed(start, now, steps, prefix@, step);
                    steps = steps.push(step);
                }
                return Err(e);
            },
        }
        let ghost now = gen@;
        let (next, Ghost(step)) = next_item::<T4>(gen, &mut prefix);
        match next {
            Ok(_) => {
                proof {
                    lemma_gathered_more(
                        start,
                        now,
                        steps,
                        prefix@.drop_last(),
                        step,
                        prefix@.last(),
                    );
                    assert(prefix@.drop_last().push(prefix@.last()) =~= prefix@);
                    steps = steps.push(step);
                }
            },
            Err(e) => {
                proof {
                    lemma_gathered_failed(start, now, steps, prefix@, step);
                    steps = steps.push(step);
                }
                return Err(e);
            },
        }
        let ghost now = gen@;
        let (next, Ghost(step)) = next_item::<T5>(gen, &mut prefix);
        match next {
            Ok(_) => {
                proof {
                    lemma_gathered_more(
                        start,
                        now,
                        steps,
                        prefix@.drop_last(),
                        step,
                        prefix@.last(),
                    );
                    assert(prefix@.drop_last().push(prefix@.last()) =~= prefix@);
                    steps = steps.push(step);
                }
            },
            Err(e) => {
                proof {
                    lemma_gathered_failed(start, now, steps, prefix@, step);
                    steps = steps.push(step);
                }
                return Err(e);
            },
        }
        let ghost now = gen@;
        let (next, Ghost(step)) = next_item::<T6>(gen, &mut prefix);
        match next {
            Ok(_) => {
                proof {
                    lemma_gathered_more(
                        start,
                        now,
                        steps,
                        prefix@.drop_last(),
                        step,
                        prefix@.last(),
                    );
                    assert(prefix@.drop_last().push(prefix@.last()) =~= prefix@);
                    steps = steps.push(step);
                }
            },
            Err(e) => {
                proof {
                    lemma_gathered_failed(start, now, steps, prefix@, step);
                    steps = steps.push(step);
                }
                return Err(e);
            },
        }
        let ghost now = gen@;
        let (next, Ghost(step)) = next_item::<T7>(gen, &mut prefix);
        match next {
            Ok(_) => {
                proof {
                    lemma_gathered_more(
                        start,
                        now,
                        steps,
                        prefix@.drop_last(),
                        step,
                        prefix@.last(),
                    );
                    assert(prefix@.drop_last().push(prefix@.last()) =~= prefix@);
                    steps = steps.push(step);
                }
            },
            Err(e) => {
                proof {
                    lemma_gathered_failed(start, now, steps, prefix@, step);
                    steps = steps.push(step);
                }
                return Err(e);
            },
        }
        let ghost now = gen@;
        let (next, Ghost(step)) = next_item::<T8>(gen, &mut prefix);
        match next {
            Ok(_) => {
                proof {
                    lemma_gathered_more(
                        start,
                        now,
                        steps,
                        prefix@.drop_last(),
                        step,
                        prefix@.last(),
                    );
                    assert(prefix@.drop_last().push(prefix@.last()) =~= prefix@);
                    steps = steps.push(step);
                }
            },
            Err(e) => {
                proof {
                    lemma_gathered_failed(start, now, steps, prefix@, step);
                    steps = steps.push(step);
                }
                return Err(e);
            },
        }
        let ghost now = gen@;
        let (next, Ghost(step)) = next_item::<T9>(gen, &mut prefix);
        match next {
            Ok(_) => {
                proof {
                    lemma_gathered_more(
                        start,
                        now,
                        steps,
                        prefix@.drop_last(),
                        step,
                        prefix@.last(),
                    );
                    assert(prefix@.drop_last().push(prefix@.last()) =~= prefix@);
                    steps = steps.push(step);
                }
            },
            Err(e) => {
                proof {
                    lemma_gathered_failed(start, now, steps, prefix@, step);
                    steps = steps.push(step);
                }
                return Err(e);
            },
        }
        let ghost now = gen@;
        let (next, Ghost(step)) = next_item::<T10>(gen, &mut prefix);
        match next {
            Ok(_) => {
                proof {
                    lemma_gathered_more(
                        start,
                        now,
                        steps,
                        prefix@.drop_last(),
                        step,
                        prefix@.last(),
                    );
                    assert(prefix@.drop_last().push(prefix@.last()) =~= prefix@);
                    steps = steps.push(step);
                }
            },
            Err(e) => {
                proof {
                    lemma_gathered_failed(start, now, steps, prefix@, step);
                    steps = steps.push(step);
                }
                return Err(e);
            },
        }
        let ghost now = gen@;
        let (next, Ghost(step)) = next_item::<T11>(gen, &mut prefix);
        match next {
            Ok(_) => {
                proof {
                    lemma_gathered_more(
                        start,
                        now,
                        steps,
                        prefix@.drop_last(),
                        step,
                        prefix@.last(),
                    );
                    assert(prefix@.drop_last().push(prefix@.last()) =~= prefix@);
                    steps = steps.push(step);
                }
            },
            Err(e) => {
                proof {
                    lemma_gathered_failed(start, now, steps, prefix@, step);
                    steps = steps.push(step);
                }
                return Err(e);
            },
        }
        Ok(tuple_validator(prefix, 12))
    }
}

impl<
    T0: FogValidate,
    T1: FogValidate,
    T2: FogValidate,
    T3: FogValidate,
    T4: FogValidate,
    T5: FogValidate,
    T6: FogValidate,
    T7: FogValidate,
    T8: FogValidate,
    T9: FogValidate,
    T10: FogValidate,
    T11: FogValidate,
    T12: FogValidate,
> FogValidate for (T0, T1, T2, T3, T4, T5, T6, T7, T8, T9, T10, T11, T12) {
    fn origin(opt: bool) -> (marker: String)
        ensures
            marker@ == "Tuple13"@,
    {
        String::from_str("Tuple13")
    }

    fn should_reference(opt: bool) -> (shared: bool)
        ensures
            !shared,
    {
        false
    }

    fn has_opt() -> (differs: bool)
        ensures
            !differs,
    {
        false
    }

    fn validator_name(opt: bool) -> (name: Name)
        ensures
            name@.id == identifier_of(""@, "Tuple13"@),
            name@.type_params.len() == 13,
    {
        proof {
            reveal_strlit("");
            reveal_strlit("Tuple13");
        }
        let mut params: Vec<Name> = Vec::new();
        params.push(T0::validator_name(false));
        params.push(T1::validator_name(false));
        params.push(T2::validator_name(false));
        params.push(T3::validator_name(false));
        params.push(T4::validator_name(false));
        params.push(T5::validator_name(false));
        params.push(T6::validator_name(false));
        params.push(T7::validator_name(false));
        params.push(T8::validator_name(false));
        params.push(T9::validator_name(false));
        params.push(T10::validator_name(false));
        params.push(T11::validator_name(false));
        params.push(T12::validator_name(false));
        Name::with_types("", "Tuple13", params)
    }

    /// The array with what each of the shapes resolves to, one after the
    /// other. The steps are the resolutions that were made, each as `step_of`
    /// says for its shape: the generator changes as they change it, and the
    /// first error ends the way and is handed on.
    fn validator(gen: &mut SchemaGenerator, opt: bool) -> (validator: Result<
        ValidatorTree,
        SchemaError,
    >)
        ensures
            generator_wf(final(gen)@),
            exists|steps: Seq<Step>|
                {
                    &&& #[trigger] chained(old(gen)@, final(gen)@, steps)
                    &&& steps.len() <= 13
                    &&& 0 < steps.len() ==> step_of::<T0>(steps[0])
                    &&& 1 < steps.len() ==> step_of::<T1>(steps[1])
                    &&& 2 < steps.len() ==> step_of::<T2>(steps[2])
                    &&& 3 < steps.len() ==> step_of::<T3>(steps[3])
                    &&& 4 < steps.len() ==> step_of::<T4>(steps[4])
                    &&& 5 < steps.len() ==> step_of::<T5>(steps[5])
                    &&& 6 < steps.len() ==> step_of::<T6>(steps[6])
                    &&& 7 < steps.len() ==> step_of::<T7>(steps[7])
                    &&& 8 < steps.len() ==> step_of::<T8>(steps[8])
                    &&& 9 < steps.len() ==> step_of::<T9>(steps[9])
                    &&& 10 < steps.len() ==> step_of::<T10>(steps[10])
                    &&& 11 < steps.len() ==> step_of::<T11>(steps[11])
                    &&& 12 < steps.len() ==> step_of::<T12>(steps[12])
                    &&& match validator {
                        Ok(ValidatorTree::Array { contains, items, prefix, rules }) => {
                            &&& contains@.len() == 0
                            &&& *items is Any
                            &&& gathered(old(gen)@, final(gen)@, steps, prefix@)
                            &&& prefix@.len() == 13
                            &&& exists|start: fog_pack::validator::ArrayValidator|
                                rules == #[trigger] sized_rules(start, 13)
                        },
                        Ok(_) => false,
                        Err(_) => steps.last().answer == validator,
                    }
                },
    {
        let ghost start = gen@;
        let ghost mut steps: Seq<Step> = Seq::empty();
        let mut prefix: Vec<ValidatorTree> = Vec::new();
        let ghost now = gen@;
        let (next, Ghost(step)) = next_item::<T0>(gen, &mut prefix);
        match next {
            Ok(_) => {
                proof {
                    lemma_gathered_more(
                        start,
                        now,
                        steps,
                        prefix@.drop_last(),
                        step,
                        prefix@.last(),
                    );
                    assert(prefix@.drop_last().push(prefix@.last()) =~= prefix@);
                    steps = steps.push(step);
                }
            },
            Err(e) => {
                proof {
                    lemma_gathered_failed(start, now, steps, prefix@, step);
                    steps = steps.push(step);
                }
                return Err(e);
            },
        }
        let ghost now = gen@;
        let (next, Ghost(step)) = next_item::<T1>(gen, &mut prefix);
        match next {
            Ok(_) => {
                proof {
                    lemma_gathered_more(
                        start,
                        now,
                        steps,
                        prefix@.drop_last(),
                        step,
                        prefix@.last(),
                    );
                    assert(prefix@.drop_last().push(prefix@.last()) =~= prefix@);
                    steps = steps.push(step);
                }
            },
            Err(e) => {
                proof {
                    lemma_gathered_failed(start, now, steps, prefix@, step);
                    steps = steps.push(step);
                }
                return Err(e);
            },
        }
        let ghost now = gen@;
        let (next, Ghost(step)) = next_item::<T2>(gen, &mut prefix);
        match next {
            Ok(_) => {
                proof {
                    lemma_gathered_more(
                        start,
                        now,
                        steps,
                        prefix@.drop_last(),
                        step,
                        prefix@.last(),
                    );
                    assert(prefix@.drop_last().push(prefix@.last()) =~= prefix@);
                    steps = steps.push(step);
                }
            },
            Err(e) => {
                proof {
                    lemma_gathered_failed(start, now, steps, prefix@, step);
                    steps = steps.push(step);
                }
                return Err(e);
            },
        }
        let ghost now = gen@;
        let (next, Ghost(step)) = next_item::<T3>(gen, &mut prefix);
        match next {
            Ok(_) => {
                proof {
                    lemma_gathered_more(
                        start,
                        now,
                        steps,
                        prefix@.drop_last(),
                        step,
                        prefix@.last(),
                    );
                    assert(prefix@.drop_last().push(prefix@.last()) =~= prefix@);
                    steps = steps.push(step);
                }
            },
            Err(e) => {
                proof {
                    lemma_gathered_failed(start, now, steps, prefix@, step);
                    steps = steps.push(step);
                }
                return Err(e);
            },
        }
        let ghost now = gen@;
        let (next, Ghost(step)) = next_item::<T4>(gen, &mut prefix);
        match next {
            Ok(_) => {
                proof {
                    lemma_gathered_more(
                        start,
                        now,
                        steps,
                        prefix@.drop_last(),
                        step,
                        prefix@.last(),
                    );
                    assert(prefix@.drop_last().push(prefix@.last()) =~= prefix@);
                    steps = steps.push(step);
                }
            },
            Err(e) => {
                proof {
                    lemma_gathered_failed(start, now, steps, prefix@, step);
                    steps = steps.push(step);
                }
                return Err(e);
            },
        }
        let ghost now = gen@;
        let (next, Ghost(step)) = next_item::<T5>(gen, &mut prefix);
        match next {
            Ok(_) => {
                proof {
                    lemma_gathered_more(
                        start,
                        now,
                        steps,
                        prefix@.drop_last(),
                        step,
                        prefix@.last(),
                    );
                    assert(prefix@.drop_last().push(prefix@.last()) =~= prefix@);
                    steps = steps.push(step);
                }
            },
            Err(e) => {
                proof {
                    lemma_gathered_failed(start, now, steps, prefix@, step);
                    steps = steps.push(step);
                }
                return Err(e);
            },
        }
        let ghost now = gen@;
        let (next, Ghost(step)) = next_item::<T6>(gen, &mut prefix);
        match next {
            Ok(_) => {
                proof {
                    lemma_gathered_more(
                        start,
                        now,
                        steps,
                        prefix@.drop_last(),
                        step,
                        prefix@.last(),
                    );
                    assert(prefix@.drop_last().push(prefix@.last()) =~= prefix@);
                    steps = steps.push(step);
                }
            },
            Err(e) => {
                proof {
                    lemma_gathered_failed(start, now, steps, prefix@, step);
                    steps = steps.push(step);
                }
                return Err(e);
            },
        }
        let ghost now = gen@;
        let (next, Ghost(step)) = next_item::<T7>(gen, &mut prefix);
        match next {
            Ok(_) => {
                proof {
                    lemma_gathered_more(
                        start,
                        now,
                        steps,
                        prefix@.drop_last(),
                        step,
                        prefix@.last(),
                    );
                    assert(prefix@.drop_last().push(prefix@.last()) =~= prefix@);
                    steps = steps.push(step);
                }
            },
            Err(e) => {
                proof {
                    lemma_gathered_failed(start, now, steps, prefix@, step);
                    steps = steps.push(step);
                }
                return Err(e);
            },
        }
        let ghost now = gen@;
        let (next, Ghost(step)) = next_item::<T8>(gen, &mut prefix);
        match next {
            Ok(_) => {
                proof {
                    lemma_gathered_more(
                        start,
                        now,
                        steps,
                        prefix@.drop_last(),
                        step,
                        prefix@.last(),
                    );
                    assert(prefix@.drop_last().push(prefix@.last()) =~= prefix@);
                    steps = steps.push(step);
                }
            },
            Err(e) => {
                proof {
                    lemma_gathered_failed(start, now, steps, prefix@, step);
                    steps = steps.push(step);
                }
                return Err(e);
            },
        }
        let ghost now = gen@;
        let (next, Ghost(step)) = next_item::<T9>(gen, &mut prefix);
        match next {
            Ok(_) => {
                proof {
                    lemma_gathered_more(
                        start,
                        now,
                        steps,
                        prefix@.drop_last(),
                        step,
                        prefix@.last(),
                    );
                    assert(prefix@.drop_last().push(prefix@.last()) =~= prefix@);
                    steps = steps.push(step);
                }
            },
            Err(e) => {
                proof {
                    lemma_gathered_failed(start, now, steps, prefix@, step);
                    steps = steps.push(step);
                }
                return Err(e);
            },
        }
        let ghost now = gen@;
        let (next, Ghost(step)) = next_item::<T10>(gen, &mut prefix);
        match next {
            Ok(_) => {
                proof {
                    lemma_gathered_more(
                        start,
                        now,
                        steps,
                        prefix@.drop_last(),
                        step,
                        prefix@.last(),
                    );
                    assert(prefix@.drop_last().push(prefix@.last()) =~= prefix@);
                    steps = steps.push(step);
                }
            },
            Err(e) => {
                proof {
                    lemma_gathered_failed(start, now, steps, prefix@, step);
                    steps = steps.push(step);
                }
                return Err(e);
            },
        }
        let ghost now = gen@;
        let (next, Ghost(step)) = next_item::<T11>(gen, &mut prefix);
        match next {
            Ok(_) => {
                proof {
                    lemma_gathered_more(
                        start,
                        now,
                        steps,
                        prefix@.drop_last(),
                        step,
                        prefix@.last(),
                    );
                    assert(prefix@.drop_last().push(prefix@.last()) =~= prefix@);
                    steps = steps.push(step);
                }
            },
            Err(e) => {
                proof {
                    lemma_gathered_failed(start, now, steps, prefix@, step);
                    steps = steps.push(step);
                }
                return Err(e);
            },
        }
        let ghost now = gen@;
        let (next, Ghost(step)) = next_item::<T12>(gen, &mut prefix);
        match next {
            Ok(_) => {
                proof {
                    lemma_gathered_more(
                        start,
                        now,
                        steps,
                        prefix@.drop_last(),
                        step,
                        prefix@.last(),
                    );
                    assert(prefix@.drop_last().push(prefix@.last()) =~= prefix@);
                    steps = steps.push(step);
                }
            },
            Err(e) => {
                proof {
                    lemma_gathered_failed(start, now, steps, prefix@, step);
                    steps = steps.push(step);
                }
                return Err(e);
            },
        }
        Ok(tuple_validator(prefix, 13))
    }
}

impl<
    T0: FogValidate,
    T1: FogValidate,
    T2: FogValidate,
    T3: FogValidate,
    T4: FogValidate,
    T5: FogValidate,
    T6: FogValidate,
    T7: FogValidate,
    T8: FogValidate,
    T9: FogValidate,
    T10: FogValidate,
    T11: FogValidate,
    T12: FogValidate,
    T13: FogValidate,
> FogValidate for (T0, T1, T2, T3, T4, T5, T6, T7, T8, T9, T10, T11, T12, T13) {
    fn origin(opt: bool) -> (marker: String)
        ensures
            marker@ == "Tuple14"@,
    {
        String::from_str("Tuple14")
    }

    fn should_reference(opt: bool) -> (shared: bool)
        ensures
            !shared,
    {
        false
    }

    fn has_opt() -> (differs: bool)
        ensures
            !differs,
    {
        false
    }

    fn validator_name(opt: bool) -> (name: Name)
        ensures
            name@.id == identifier_of(""@, "Tuple14"@),
            name@.type_params.len() == 14,
    {
        proof {
            reveal_strlit("");
            reveal_strlit("Tuple14");
        }
        let mut params: Vec<Name> = Vec::new();
        params.push(T0::validator_name(false));
        params.push(T1::validator_name(false));
        params.push(T2::validator_name(false));
        params.push(T3::validator_name(false));
        params.push(T4::validator_name(false));
        params.push(T5::validator_name(false));
        params.push(T6::validator_name(false));
        params.push(T7::validator_name(false));
        params.push(T8::validator_name(false));
        params.push(T9::validator_name(false));
        params.push(T10::validator_name(false));
        params.push(T11::validator_name(false));
        params.push(T12::validator_name(false));
        params.push(T13::validator_name(false));
        Name::with_types("", "Tuple14", params)
    }

    /// The array with what each of the shapes resolves to, one after the
    /// other. The steps are the resolutions that were made, each as `step_of`
    /// says for its shape: the generator changes as they change it, and the
    /// first error ends the way and is handed on.
    fn validator(gen: &mut SchemaGenerator, opt: bool) -> (validator: Result<
        ValidatorTree,
        SchemaError,
    >)
        ensures
            generator_wf(final(gen)@),
            exists|steps: Seq<Step>|
                {
                    &&& #[trigger] chained(old(gen)@, final(gen)@, steps)
                    &&& steps.len() <= 14
                    &&& 0 < steps.len() ==> step_of::<T0>(steps[0])
                    &&& 1 < steps.len() ==> step_of::<T1>(steps[1])
                    &&& 2 < steps.len() ==> step_of::<T2>(steps[2])
                    &&& 3 < steps.len() ==> step_of::<T3>(steps[3])
                    &&& 4 < steps.len() ==> step_of::<T4>(steps[4])
                    &&& 5 < steps.len() ==> step_of::<T5>(steps[5])
                    &&& 6 < steps.len() ==> step_of::<T6>(steps[6])
                    &&& 7 < steps.len() ==> step_of::<T7>(steps[7])
                    &&& 8 < steps.len() ==> step_of::<T8>(steps[8])
                    &&& 9 < steps.len() ==> step_of::<T9>(steps[9])
                    &&& 10 < steps.len() ==> step_of::<T10>(steps[10])
                    &&& 11 < steps.len() ==> step_of::<T11>(steps[11])
                    &&& 12 < steps.len() ==> step_of::<T12>(steps[12])
                    &&& 13 < steps.len() ==> step_of::<T13>(steps[13])
                    &&& match validator {
                        Ok(ValidatorTree::Array { contains, items, prefix, rules }) => {
                            &&& contains@.len() == 0
                            &&& *items is Any
                            &&& gathered(old(gen)@, final(gen)@, steps, prefix@)
                            &&& prefix@.len() == 14
                            &&& exists|start: fog_pack::validator::ArrayValidator|
                                rules == #[trigger] sized_rules(start, 14)
                        },
                        Ok(_) => false,
                        Err(_) => steps.last().answer == validator,
                    }
                },
    {
        let ghost start = gen@;
        let ghost mut steps: Seq<Step> = Seq::empty();
        let mut prefix: Vec<ValidatorTree> = Vec::new();
        let ghost now = gen@;
        let (next, Ghost(step)) = next_item::<T0>(gen, &mut prefix);
        match next {
            Ok(_) => {
                proof {
                    lemma_gathered_more(
                        start,
                        now,
                        steps,
                        prefix@.drop_last(),
                        step,
                        prefix@.last(),
                    );
                    assert(prefix@.drop_last().push(prefix@.last()) =~= prefix@);
                    steps = steps.push(step);
                }
            },
            Err(e) => {
                proof {
                    lemma_gathered_failed(start, now, steps, prefix@, step);
                    steps = steps.push(step);
                }
                return Err(e);
            },
        }
        let ghost now = gen@;
        let (next, Ghost(step)) = next_item::<T1>(gen, &mut prefix);
        match next {
            Ok(_) => {
                proof {
                    lemma_gathered_more(
                        start,
                        now,
                        steps,
                        prefix@.drop_last(),
                        step,
                        prefix@.last(),
                    );
                    assert(prefix@.drop_last().push(prefix@.last()) =~= prefix@);
                    steps = steps.push(step);
                }
            },
            Err(e) => {
                proof {
                    lemma_gathered_failed(start, now, steps, prefix@, step);
                    steps = steps.push(step);
                }
                return Err(e);
            },
        }
        let ghost now = gen@;
        let (next, Ghost(step)) = next_item::<T2>(gen, &mut prefix);
        match next {
            Ok(_) => {
                proof {
                    lemma_gathered_more(
                        start,
                        now,
                        steps,
                        prefix@.drop_last(),
                        step,
                        prefix@.last(),
                    );
                    assert(prefix@.drop_last().push(prefix@.last()) =~= prefix@);
                    steps = steps.push(step);
                }
            },
            Err(e) => {
                proof {
                    lemma_gathered_failed(start, now, steps, prefix@, step);
                    steps = steps.push(step);
                }
                return Err(e);
            },
        }
        let ghost now = gen@;
        let (next, Ghost(step)) = next_item::<T3>(gen, &mut prefix);
        match next {
            Ok(_) => {
                proof {
                    lemma_gathered_more(
                        start,
                        now,
                        steps,
                        prefix@.drop_last(),
                        step,
                        prefix@.last(),
                    );
                    assert(prefix@.drop_last().push(prefix@.last()) =~= prefix@);
                    steps = steps.push(step);
                }
            },
            Err(e) => {
                proof {
                    lemma_gathered_failed(start, now, steps, prefix@, step);
                    steps = steps.push(step);
                }
                return Err(e);
            },
        }
        let ghost now = gen@;
        let (next, Ghost(step)) = next_item::<T4>(gen, &mut prefix);
        match next {
            Ok(_) => {
                proof {
                    lemma_gathered_more(
                        start,
                        now,
                        steps,
                        prefix@.drop_last(),
                        step,
                        prefix@.last(),
                    );
                    assert(prefix@.drop_last().push(prefix@.last()) =~= prefix@);
                    steps = steps.push(step);
                }
            },
            Err(e) => {
                proof {
                    lemma_gathered_failed(start, now, steps, prefix@, step);
                    steps = steps.push(step);
                }
                return Err(e);
            },
        }
        let ghost now = gen@;
        let (next, Ghost(step)) = next_item::<T5>(gen, &mut prefix);
        match next {
            Ok(_) => {
                proof {
                    lemma_gathered_more(
                        start,
                        now,
                        steps,
                        prefix@.drop_last(),
                        step,
                        prefix@.last(),
                    );
                    assert(prefix@.drop_last().push(prefix@.last()) =~= prefix@);
                    steps = steps.push(step);
                }
            },
            Err(e) => {
                proof {
                    lemma_gathered_failed(start, now, steps, prefix@, step);
                    steps = steps.push(step);
                }
                return Err(e);
            },
        }
        let ghost now = gen@;
        let (next, Ghost(step)) = next_item::<T6>(gen, &mut prefix);
        match next {
            Ok(_) => {
                proof {
                    lemma_gathered_more(
                        start,
                        now,
                        steps,
                        prefix@.drop_last(),
                        step,
                        prefix@.last(),
                    );
                    assert(prefix@.drop_last().push(prefix@.last()) =~= prefix@);
                    steps = steps.push(step);
                }
            },
            Err(e) => {
                proof {
                    lemma_gathered_failed(start, now, steps, prefix@, step);
                    steps = steps.push(step);
                }
                return Err(e);
            },
        }
        let ghost now = gen@;
        let (next, Ghost(step)) = next_item::<T7>(gen, &mut prefix);
        match next {
            Ok(_) => {
                proof {
                    lemma_gathered_more(
                        start,
                        now,
                        steps,
                        prefix@.drop_last(),
                        step,
                        prefix@.last(),
                    );
                    assert(prefix@.drop_last().push(prefix@.last()) =~= prefix@);
                    steps = steps.push(step);
                }
            },
            Err(e) => {
                proof {
                    lemma_gathered_failed(start, now, steps, prefix@, step);
                    steps = steps.push(step);
                }
                return Err(e);
            },
        }
        let ghost now = gen@;
        let (next, Ghost(step)) = next_item::<T8>(gen, &mut prefix);
        match next {
            Ok(_) => {
                proof {
                    lemma_gathered_more(
                        start,
                        now,
                        steps,
                        prefix@.drop_last(),
                        step,
                        prefix@.last(),
                    );
                    assert(prefix@.drop_last().push(prefix@.last()) =~= prefix@);
                    steps = steps.push(step);
                }
            },
            Err(e) => {
                proof {
                    lemma_gathered_failed(start, now, steps, prefix@, step);
                    steps = steps.push(step);
                }
                return Err(e);
            },
        }
        let ghost now = gen@;
        let (next, Ghost(step)) = next_item::<T9>(gen, &mut prefix);
        match next {
            Ok(_) => {
                proof {
                    lemma_gathered_more(
                        start,
                        now,
                        steps,
                        prefix@.drop_last(),
                        step,
                        prefix@.last(),
                    );
                    assert(prefix@.drop_last().push(prefix@.last()) =~= prefix@);
                    steps = steps.push(step);
                }
            },
            Err(e) => {
                proof {
                    lemma_gathered_failed(start, now, steps, prefix@, step);
                    steps = steps.push(step);
                }
                return Err(e);
            },
        }
        let ghost now = gen@;
        let (next, Ghost(step)) = next_item::<T10>(gen, &mut prefix);
        match next {
            Ok(_) => {
                proof {
                    lemma_gathered_more(
                        start,
                        now,
                        steps,
                        prefix@.drop_last(),
                        step,
                        prefix@.last(),
                    );
                    assert(prefix@.drop_last().push(prefix@.last()) =~= prefix@);
                    steps = steps.push(step);
                }
            },
            Err(e) => {
                proof {
                    lemma_gathered_failed(start, now, steps, prefix@, step);
                    steps = steps.push(step);
                }
                return Err(e);
            },
        }
        let ghost now = gen@;
        let (next, Ghost(step)) = next_item::<T11>(gen, &mut prefix);
        match next {
            Ok(_) => {
                proof {
                    lemma_gathered_more(
                        start,
                        now,
                        steps,
                        prefix@.drop_last(),
                        step,
                        prefix@.last(),
                    );
                    assert(prefix@.drop_last().push(prefix@.last()) =~= prefix@);
                    steps = steps.push(step);
                }
            },
            Err(e) => {
                proof {
                    lemma_gathered_failed(start, now, steps, prefix@, step);
                    steps = steps.push(step);
                }
                return Err(e);
            },
        }
        let ghost now = gen@;
        let (next, Ghost(step)) = next_item::<T12>(gen, &mut prefix);
        match next {
            Ok(_) => {
                proof {
                    lemma_gathered_more(
                        start,
                        now,
                        steps,
                        prefix@.drop_last(),
                        step,
                        prefix@.last(),
                    );
                    assert(prefix@.drop_last().push(prefix@.last()) =~= prefix@);
                    steps = steps.push(step);
                }
            },
            Err(e) => {
                proof {
                    lemma_gathered_failed(start, now, steps, prefix@, step);
                    steps = steps.push(step);
                }
                return Err(e);
            },
        }
        let ghost now = gen@;
        let (next, Ghost(step)) = next_item::<T13>(gen, &mut prefix);
        match next {
            Ok(_) => {
                proof {
                    lemma_gathered_more(
                        start,
                        now,
                        steps,
                        prefix@.drop_last(),
                        step,
                        prefix@.last(),
                    );
                    assert(prefix@.drop_last().push(prefix@.last()) =~= prefix@);
                    steps = steps.push(step);
                }
            },
            Err(e) => {
                proof {
                    lemma_gathered_failed(start, now, steps, prefix@, step);
                    steps = steps.push(step);
                }
                return Err(e);
            },
        }
        Ok(tuple_validator(prefix, 14))
    }
}

impl<
    T0: FogValidate,
    T1: FogValidate,
    T2: FogValidate,
    T3: FogValidate,
    T4: FogValidate,
    T5: FogValidate,
    T6: FogValidate,
    T7: FogValidate,
    T8: FogValidate,
    T9: FogValidate,
    T10: FogValidate,
    T11: FogValidate,
    T12: FogValidate,
    T13: FogValidate,
    T14: FogValidate,
> FogValidate for (T0, T1, T2, T3, T4, T5, T6, T7, T8, T9, T10, T11, T12, T13, T14) {
    fn origin(opt: bool) -> (marker: String)
        ensures
            marker@ == "Tuple15"@,
    {
        String::from_str("Tuple15")
    }

    fn should_reference(opt: bool) -> (shared: bool)
        ensures
            !shared,
    {
        false
    }

    fn has_opt() -> (differs: bool)
        ensures
            !differs,
    {
        false
    }

    fn validator_name(opt: bool) -> (name: Name)
        ensures
            name@.id == identifier_of(""@, "Tuple15"@),
            name@.type_params.len() == 15,
    {
        proof {
            reveal_strlit("");
            reveal_strlit("Tuple15");
        }
        let mut params: Vec<Name> = Vec::new();
        params.push(T0::validator_name(false));
        params.push(T1::validator_name(false));
        params.push(T2::validator_name(false));
        params.push(T3::validator_name(false));
        params.push(T4::validator_name(false));
        params.push(T5::validator_name(false));
        params.push(T6::validator_name(false));
        params.push(T7::validator_name(false));
        params.push(T8::validator_name(false));
        params.push(T9::validator_name(false));
        params.push(T10::validator_name(false));
        params.push(T11::validator_name(false));
        params.push(T12::validator_name(false));
        params.push(T13::validator_name(false));
        params.push(T14::validator_name(false));
        Name::with_types("", "Tuple15", params)
    }

    /// The array with what each of the shapes resolves to, one after the
    /// other. The steps are the resolutions that were made, each as `step_of`
    /// says for its shape: the generator changes as they change it, and the
    /// first error ends the way and is handed on.
    fn validator(gen: &mut SchemaGenerator, opt: bool) -> (validator: Result<
        ValidatorTree,
        SchemaError,
    >)
        ensures
            generator_wf(final(gen)@),
            exists|steps: Seq<Step>|
                {
                    &&& #[trigger] chained(old(gen)@, final(gen)@, steps)
                    &&& steps.len() <= 15
                    &&& 0 < steps.len() ==> step_of::<T0>(steps[0])
                    &&& 1 < steps.len() ==> step_of::<T1>(steps[1])
                    &&& 2 < steps.len() ==> step_of::<T2>(steps[2])
                    &&& 3 < steps.len() ==> step_of::<T3>(steps[3])
                    &&& 4 < steps.len() ==> step_of::<T4>(steps[4])
                    &&& 5 < steps.len() ==> step_of::<T5>(steps[5])
                    &&& 6 < steps.len() ==> step_of::<T6>(steps[6])
                    &&& 7 < steps.len() ==> step_of::<T7>(steps[7])
                    &&& 8 < steps.len() ==> step_of::<T8>(steps[8])
                    &&& 9 < steps.len() ==> step_of::<T9>(steps[9])
                    &&& 10 < steps.len() ==> step_of::<T10>(steps[10])
                    &&& 11 < steps.len() ==> step_of::<T11>(steps[11])
                    &&& 12 < steps.len() ==> step_of::<T12>(steps[12])
                    &&& 13 < steps.len() ==> step_of::<T13>(steps[13])
                    &&& 14 < steps.len() ==> step_of::<T14>(steps[14])
                    &&& match validator {
                        Ok(ValidatorTree::Array { contains, items, prefix, rules }) => {
                            &&& contains@.len() == 0
                            &&& *items is Any
                            &&& gathered(old(gen)@, final(gen)@, steps, prefix@)
                            &&& prefix@.len() == 15
                            &&& exists|start: fog_pack::validator::ArrayValidator|
                                rules == #[trigger] sized_rules(start, 15)
                        },
                        Ok(_) => false,
                        Err(_) => steps.last().answer == validator,
                    }
                },
    {
        let ghost start = gen@;
        let ghost mut steps: Seq<Step> = Seq::empty();
        let mut prefix: Vec<ValidatorTree> = Vec::new();
        let ghost now = gen@;
        let (next, Ghost(step)) = next_item::<T0>(gen, &mut prefix);
        match next {
            Ok(_) => {
                proof {
                    lemma_gathered_more(
                        start,
                        now,
                        steps,
                        prefix@.drop_last(),
                        step,
                        prefix@.last(),
                    );
                    assert(prefix@.drop_last().push(prefix@.last()) =~= prefix@);
                    steps = steps.push(step);
                }
            },
            Err(e) => {
                proof {
                    lemma_gathered_failed(start, now, steps, prefix@, step);
                    steps = steps.push(step);
                }
                return Err(e);
            },
        }
        let ghost now = gen@;
        let (next, Ghost(step)) = next_item::<T1>(gen, &mut prefix);
        match next {
            Ok(_) => {
                proof {
                    lemma_gathered_more(
                        start,
                        now,
                        steps,
                        prefix@.drop_last(),
                        step,
                        prefix@.last(),
                    );
                    assert(prefix@.drop_last().push(prefix@.last()) =~= prefix@);
                    steps = steps.push(step);
                }
            },
            Err(e) => {
                proof {
                    lemma_gathered_failed(start, now, steps, prefix@, step);
                    steps = steps.push(step);
                }
                return Err(e);
            },
        }
        let ghost now = gen@;
        let (next, Ghost(step)) = next_item::<T2>(gen, &mut prefix);
        match next {
            Ok(_) => {
                proof {
                    lemma_gathered_more(
                        start,
                        now,
                        steps,
                        prefix@.drop_last(),
                        step,
                        prefix@.last(),
                    );
                    assert(prefix@.drop_last().push(prefix@.last()) =~= prefix@);
                    steps = steps.push(step);
                }
            },
            Err(e) => {
                proof {
                    lemma_gathered_failed(start, now, steps, prefix@, step);
                    steps = steps.push(step);
                }
                return Err(e);
            },
        }
        let ghost now = gen@;
        let (next, Ghost(step)) = next_item::<T3>(gen, &mut prefix);
        match next {
            Ok(_) => {
                proof {
                    lemma_gathered_more(
                        start,
                        now,
                        steps,
                        prefix@.drop_last(),
                        step,
                        prefix@.last(),
                    );
                    assert(prefix@.drop_last().push(prefix@.last()) =~= prefix@);
                    steps = steps.push(step);
                }
            },
            Err(e) => {
                proof {
                    lemma_gathered_failed(start, now, steps, prefix@, step);
                    steps = steps.push(step);
                }
                return Err(e);
            },
        }
        let ghost now = gen@;
        let (next, Ghost(step)) = next_item::<T4>(gen, &mut prefix);
        match next {
            Ok(_) => {
                proof {
                    lemma_gathered_more(
                        start,
                        now,
                        steps,
                        prefix@.drop_last(),
                        step,
                        prefix@.last(),
                    );
                    assert(prefix@.drop_last().push(prefix@.last()) =~= prefix@);
                    steps = steps.push(step);
                }
            },
            Err(e) => {
                proof {
                    lemma_gathered_failed(start, now, steps, prefix@, step);
                    steps = steps.push(step);
                }
                return Err(e);
            },
        }
        let ghost now = gen@;
        let (next, Ghost(step)) = next_item::<T5>(gen, &mut prefix);
        match next {
            Ok(_) => {
                proof {
                    lemma_gathered_more(
                        start,
                        now,
                        steps,
                        prefix@.drop_last(),
                        step,
                        prefix@.last(),
                    );
                    assert(prefix@.drop_last().push(prefix@.last()) =~= prefix@);
                    steps = steps.push(step);
                }
            },
            Err(e) => {
                proof {
                    lemma_gathered_failed(start, now, steps, prefix@, step);
                    steps = steps.push(step);
                }
                return Err(e);
            },
        }
        let ghost now = gen@;
        let (next, Ghost(step)) = next_item::<T6>(gen, &mut prefix);
        match next {
            Ok(_) => {
                proof {
                    lemma_gathered_more(
                        start,
                        now,
                        steps,
                        prefix@.drop_last(),
                        step,
                        prefix@.last(),
                    );
                    assert(prefix@.drop_last().push(prefix@.last()) =~= prefix@);
                    steps = steps.push(step);
                }
            },
            Err(e) => {
                proof {
                    lemma_gathered_failed(start, now, steps, prefix@, step);
                    steps = steps.push(step);
                }
                return Err(e);
            },
        }
        let ghost now = gen@;
        let (next, Ghost(step)) = next_item::<T7>(gen, &mut prefix);
        match next {
            Ok(_) => {
                proof {
                    lemma_gathered_more(
                        start,
                        now,
                        steps,
                        prefix@.drop_last(),
                        step,
                        prefix@.last(),
                    );
                    assert(prefix@.drop_last().push(prefix@.last()) =~= prefix@);
                    steps = steps.push(step);
                }
            },
            Err(e) => {
                proof {
                    lemma_gathered_failed(start, now, steps, prefix@, step);
                    steps = steps.push(step);
                }
                return Err(e);
            },
        }
        let ghost now = gen@;
        let (next, Ghost(step)) = next_item::<T8>(gen, &mut prefix);
        match next {
            Ok(_) => {
                proof {
                    lemma_gathered_more(
                        start,
                        now,
                        steps,
                        prefix@.drop_last(),
                        step,
                        prefix@.last(),
                    );
                    assert(prefix@.drop_last().push(prefix@.last()) =~= prefix@);
                    steps = steps.push(step);
                }
            },
            Err(e) => {
                proof {
                    lemma_gathered_failed(start, now, steps, prefix@, step);
                    steps = steps.push(step);
                }
                return Err(e);
            },
        }
        let ghost now = gen@;
        let (next, Ghost(step)) = next_item::<T9>(gen, &mut prefix);
        match next {
            Ok(_) => {
                proof {
                    lemma_gathered_more(
                        start,
                        now,
                        steps,
                        prefix@.drop_last(),
                        step,
                        prefix@.last(),
                    );
                    assert(prefix@.drop_last().push(prefix@.last()) =~= prefix@);
                    steps = steps.push(step);
                }
            },
            Err(e) => {
                proof {
                    lemma_gathered_failed(start, now, steps, prefix@, step);
                    steps = steps.push(step);
                }
                return Err(e);
            },
        }
        let ghost now = gen@;
        let (next, Ghost(step)) = next_item::<T10>(gen, &mut prefix);
        match next {
            Ok(_) => {
                proof {
                    lemma_gathered_more(
                        start,
                        now,
                        steps,
                        prefix@.drop_last(),
                        step,
                        prefix@.last(),
                    );
                    assert(prefix@.drop_last().push(prefix@.last()) =~= prefix@);
                    steps = steps.push(step);
                }
            },
            Err(e) => {
                proof {
                    lemma_gathered_failed(start, now, steps, prefix@, step);
                    steps = steps.push(step);
                }
                return Err(e);
            },
        }
        let ghost now = gen@;
        let (next, Ghost(step)) = next_item::<T11>(gen, &mut prefix);
        match next {
            Ok(_) => {
                proof {
                    lemma_gathered_more(
                        start,
                        now,
                        steps,
                        prefix@.drop_last(),
                        step,
                        prefix@.last(),
                    );
                    assert(prefix@.drop_last().push(prefix@.last()) =~= prefix@);
                    steps = steps.push(step);
                }
            },
            Err(e) => {
                proof {
                    lemma_gathered_failed(start, now, steps, prefix@, step);
                    steps = steps.push(step);
                }
                return Err(e);
            },
        }
        let ghost now = gen@;
        let (next, Ghost(step)) = next_item::<T12>(gen, &mut prefix);
        match next {
            Ok(_) => {
                proof {
                    lemma_gathered_more(
                        start,
                        now,
                        steps,
                        prefix@.drop_last(),
                        step,
                        prefix@.last(),
                    );
                    assert(prefix@.drop_last().push(prefix@.last()) =~= prefix@);
                    steps = steps.push(step);
                }
            },
            Err(e) => {
                proof {
                    lemma_gathered_failed(start, now, steps, prefix@, step);
                    steps = steps.push(step);
                }
                return Err(e);
            },
        }
        let ghost now = gen@;
        let (next, Ghost(step)) = next_item::<T13>(gen, &mut prefix);
        match next {
            Ok(_) => {
                proof {
                    lemma_gathered_more(
                        start,
                        now,
                        steps,
                        prefix@.drop_last(),
                        step,
                        prefix@.last(),
                    );
                    assert(prefix@.drop_last().push(prefix@.last()) =~= prefix@);
                    steps = steps.push(step);
                }
            },
            Err(e) => {
                proof {
                    lemma_gathered_failed(start, now, steps, prefix@, step);
                    steps = steps.push(step);
                }
                return Err(e);
            },
        }
        let ghost now = gen@;
        let (next, Ghost(step)) = next_item::<T14>(gen, &mut prefix);
        match next {
            Ok(_) => {
                proof {
                    lemma_gathered_more(
                        start,
                        now,
                        steps,
                        prefix@.drop_last(),
                        step,
                        prefix@.last(),
                    );
                    assert(prefix@.drop_last().push(prefix@.last()) =~= prefix@);
                    steps = steps.push(step);
                }
            },
            Err(e) => {
                proof {
                    lemma_gathered_failed(start, now, steps, prefix@, step);
                    steps = steps.push(step);
                }
                return Err(e);
            },
        }
        Ok(tuple_validator(prefix, 15))
    }
}

impl<
    T0: FogValidate,
    T1: FogValidate,
    T2: FogValidate,
    T3: FogValidate,
    T4: FogValidate,
    T5: FogValidate,
    T6: FogValidate,
    T7: FogValidate,
    T8: FogValidate,
    T9: FogValidate,
    T10: FogValidate,
    T11: FogValidate,
    T12: FogValidate,
    T13: FogValidate,
    T14: FogValidate,
    T15: FogValidate,
> FogValidate for (T0, T1, T2, T3, T4, T5, T6, T7, T8, T9, T10, T11, T12, T13, T14, T15) {
    fn origin(opt: bool) -> (marker: String)
        ensures
            marker@ == "Tuple16"@,
    {
        String::from_str("Tuple16")
    }

    fn should_reference(opt: bool) -> (shared: bool)
        ensures
            !shared,
    {
        false
    }

    fn has_opt() -> (differs: bool)
        ensures
            !differs,
    {
        false
    }

    fn validator_name(opt: bool) -> (name: Name)
        ensures
            name@.id == identifier_of(""@, "Tuple16"@),
            name@.type_params.len() == 16,
    {
        proof {
            reveal_strlit("");
            reveal_strlit("Tuple16");
        }
        let mut params: Vec<Name> = Vec::new();
        params.push(T0::validator_name(false));
        params.push(T1::validator_name(false));
        params.push(T2::validator_name(false));
        params.push(T3::validator_name(false));
        params.push(T4::validator_name(false));
        params.push(T5::validator_name(false));
        params.push(T6::validator_name(false));
        params.push(T7::validator_name(false));
        params.push(T8::validator_name(false));
        params.push(T9::validator_name(false));
        params.push(T10::validator_name(false));
        params.push(T11::validator_name(false));
        params.push(T12::validator_name(false));
        params.push(T13::validator_name(false));
        params.push(T14::validator_name(false));
        params.push(T15::validator_name(false));
        Name::with_types("", "Tuple16", params)
    }

    /// The array with what each of the shapes resolves to, one after the
    /// other. The steps are the resolutions that were made, each as `step_of`
    /// says for its shape: the generator changes as they change it, and the
    /// first error ends the way and is handed on.
    fn validator(gen: &mut SchemaGenerator, opt: bool) -> (validator: Result<
        ValidatorTree,
        SchemaError,
    >)
        ensures
            generator_wf(final(gen)@),
            exists|steps: Seq<Step>|
                {
                    &&& #[trigger] chained(old(gen)@, final(gen)@, steps)
                    &&& steps.len() <= 16
                    &&& 0 < steps.len() ==> step_of::<T0>(steps[0])
                    &&& 1 < steps.len() ==> step_of::<T1>(steps[1])
                    &&& 2 < steps.len() ==> step_of::<T2>(steps[2])
                    &&& 3 < steps.len() ==> step_of::<T3>(steps[3])
                    &&& 4 < steps.len() ==> step_of::<T4>(steps[4])
                    &&& 5 < steps.len() ==> step_of::<T5>(steps[5])
                    &&& 6 < steps.len() ==> step_of::<T6>(steps[6])
                    &&& 7 < steps.len() ==> step_of::<T7>(steps[7])
                    &&& 8 < steps.len() ==> step_of::<T8>(steps[8])
                    &&& 9 < steps.len() ==> step_of::<T9>(steps[9])
                    &&& 10 < steps.len() ==> step_of::<T10>(steps[10])
                    &&& 11 < steps.len() ==> step_of::<T11>(steps[11])
                    &&& 12 < steps.len() ==> step_of::<T12>(steps[12])
                    &&& 13 < steps.len() ==> step_of::<T13>(steps[13])
                    &&& 14 < steps.len() ==> step_of::<T14>(steps[14])
                    &&& 15 < steps.len() ==> step_of::<T15>(steps[15])
                    &&& match validator {
                        Ok(ValidatorTree::Array { contains, items, prefix, rules }) => {
                            &&& contains@.len() == 0
                            &&& *items is Any
                            &&& gathered(old(gen)@, final(gen)@, steps, prefix@)
                            &&& prefix@.len() == 16
                            &&& exists|start: fog_pack::validator::ArrayValidator|
                                rules == #[trigger] sized_rules(start, 16)
                        },
                        Ok(_) => false,
                        Err(_) => steps.last().answer == validator,
                    }
                },
    {
        let ghost start = gen@;
        let ghost mut steps: Seq<Step> = Seq::empty();
        let mut prefix: Vec<ValidatorTree> = Vec::new();
        let ghost now = gen@;
        let (next, Ghost(step)) = next_item::<T0>(gen, &mut prefix);
        match next {
            Ok(_) => {
                proof {
                    lemma_gathered_more(
                        start,
                        now,
                        steps,
                        prefix@.drop_last(),
                        step,
                        prefix@.last(),
                    );
                    assert(prefix@.drop_last().push(prefix@.last()) =~= prefix@);
                    steps = steps.push(step);
                }
            },
            Err(e) => {
                proof {
                    lemma_gathered_failed(start, now, steps, prefix@, step);
                    steps = steps.push(step);
                }
                return Err(e);
            },
        }
        let ghost now = gen@;
        let (next, Ghost(step)) = next_item::<T1>(gen, &mut prefix);
        match next {
            Ok(_) => {
                proof {
                    lemma_gathered_more(
                        start,
                        now,
                        steps,
                        prefix@.drop_last(),
                        step,
                        prefix@.last(),
                    );
                    assert(prefix@.drop_last().push(prefix@.last()) =~= prefix@);
                    steps = steps.push(step);
                }
            },
            Err(e) => {
                proof {
                    lemma_gathered_failed(start, now, steps, prefix@, step);
                    steps = steps.push(step);
                }
                return Err(e);
            },
        }
        let ghost now = gen@;
        let (next, Ghost(step)) = next_item::<T2>(gen, &mut prefix);
        match next {
            Ok(_) => {
                proof {
                    lemma_gathered_more(
                        start,
                        now,
                        steps,
                        prefix@.drop_last(),
                        step,
                        prefix@.last(),
                    );
                    assert(prefix@.drop_last().push(prefix@.last()) =~= prefix@);
                    steps = steps.push(step);
                }
            },
            Err(e) => {
                proof {
                    lemma_gathered_failed(start, now, steps, prefix@, step);
                    steps = steps.push(step);
                }
                return Err(e);
            },
        }
        let ghost now = gen@;
        let (next, Ghost(step)) = next_item::<T3>(gen, &mut prefix);
        match next {
            Ok(_) => {
                proof {
                    lemma_gathered_more(
                        start,
                        now,
                        steps,
                        prefix@.drop_last(),
                        step,
                        prefix@.last(),
                    );
                    assert(prefix@.drop_last().push(prefix@.last()) =~= prefix@);
                    steps = steps.push(step);
                }
            },
            Err(e) => {
                proof {
                    lemma_gathered_failed(start, now, steps, prefix@, step);
                    steps = steps.push(step);
                }
                return Err(e);
            },
        }
        let ghost now = gen@;
        let (next, Ghost(step)) = next_item::<T4>(gen, &mut prefix);
        match next {
            Ok(_) => {
                proof {
                    lemma_gathered_more(
                        start,
                        now,
                        steps,
                        prefix@.drop_last(),
                        step,
                        prefix@.last(),
                    );
                    assert(prefix@.drop_last().push(prefix@.last()) =~= prefix@);
                    steps = steps.push(step);
                }
            },
            Err(e) => {
                proof {
                    lemma_gathered_failed(start, now, steps, prefix@, step);
                    steps = steps.push(step);
                }
                return Err(e);
            },
        }
        let ghost now = gen@;
        let (next, Ghost(step)) = next_item::<T5>(gen, &mut prefix);
        match next {
            Ok(_) => {
                proof {
                    lemma_gathered_more(
                        start,
                        now,
                        steps,
                        prefix@.drop_last(),
                        step,
                        prefix@.last(),
                    );
                    assert(prefix@.drop_last().push(prefix@.last()) =~= prefix@);
                    steps = steps.push(step);
                }
            },
            Err(e) => {
                proof {
                    lemma_gathered_failed(start, now, steps, prefix@, step);
                    steps = steps.push(step);
                }
                return Err(e);
            },
        }
        let ghost now = gen@;
        let (next, Ghost(step)) = next_item::<T6>(gen, &mut prefix);
        match next {
            Ok(_) => {
                proof {
                    lemma_gathered_more(
                        start,
                        now,
                        steps,
                        prefix@.drop_last(),
                        step,
                        prefix@.last(),
                    );
                    assert(prefix@.drop_last().push(prefix@.last()) =~= prefix@);
                    steps = steps.push(step);
                }
            },
            Err(e) => {
                proof {
                    lemma_gathered_failed(start, now, steps, prefix@, step);
                    steps = steps.push(step);
                }
                return Err(e);
            },
        }
        let ghost now = gen@;
        let (next, Ghost(step)) = next_item::<T7>(gen, &mut prefix);
        match next {
            Ok(_) => {
                proof {
                    lemma_gathered_more(
                        start,
                        now,
                        steps,
                        prefix@.drop_last(),
                        step,
                        prefix@.last(),
                    );
                    assert(prefix@.drop_last().push(prefix@.last()) =~= prefix@);
                    steps = steps.push(step);
                }
            },
            Err(e) => {
                proof {
                    lemma_gathered_failed(start, now, steps, prefix@, step);
                    steps = steps.push(step);
                }
                return Err(e);
            },
        }
        let ghost now = gen@;
        let (next, Ghost(step)) = next_item::<T8>(gen, &mut prefix);
        match next {
            Ok(_) => {
                proof {
                    lemma_gathered_more(
                        start,
                        now,
                        steps,
                        prefix@.drop_last(),
                        step,
                        prefix@.last(),
                    );
                    assert(prefix@.drop_last().push(prefix@.last()) =~= prefix@);
                    steps = steps.push(step);
                }
            },
            Err(e) => {
                proof {
                    lemma_gathered_failed(start, now, steps, prefix@, step);
                    steps = steps.push(step);
                }
                return Err(e);
            },
        }
        let ghost now = gen@;
        let (next, Ghost(step)) = next_item::<T9>(gen, &mut prefix);
        match next {
            Ok(_) => {
                proof {
                    lemma_gathered_more(
                        start,
                        now,
                        steps,
                        prefix@.drop_last(),
                        step,
                        prefix@.last(),
                    );
                    assert(prefix@.drop_last().push(prefix@.last()) =~= prefix@);
                    steps = steps.push(step);
                }
            },
            Err(e) => {
                proof {
                    lemma_gathered_failed(start, now, steps, prefix@, step);
                    steps = steps.push(step);
                }
                return Err(e);
            },
        }
        let ghost now = gen@;
        let (next, Ghost(step)) = next_item::<T10>(gen, &mut prefix);
        match next {
            Ok(_) => {
                proof {
                    lemma_gathered_more(
                        start,
                        now,
                        steps,
                        prefix@.drop_last(),
                        step,
                        prefix@.last(),
                    );
                    assert(prefix@.drop_last().push(prefix@.last()) =~= prefix@);
                    steps = steps.push(step);
                }
            },
            Err(e) => {
                proof {
                    lemma_gathered_failed(start, now, steps, prefix@, step);
                    steps = steps.push(step);
                }
                return Err(e);
            },
        }
        let ghost now = gen@;
        let (next, Ghost(step)) = next_item::<T11>(gen, &mut prefix);
        match next {
            Ok(_) => {
                proof {
                    lemma_gathered_more(
                        start,
                        now,
                        steps,
                        prefix@.drop_last(),
                        step,
                        prefix@.last(),
                    );
                    assert(prefix@.drop_last().push(prefix@.last()) =~= prefix@);
                    steps = steps.push(step);
                }
            },
            Err(e) => {
                proof {
                    lemma_gathered_failed(start, now, steps, prefix@, step);
                    steps = steps.push(step);
                }
                return Err(e);
            },
        }
        let ghost now = gen@;
        let (next, Ghost(step)) = next_item::<T12>(gen, &mut prefix);
        match next {
            Ok(_) => {
                proof {
                    lemma_gathered_more(
                        start,
                        now,
                        steps,
                        prefix@.drop_last(),
                        step,
                        prefix@.last(),
                    );
                    assert(prefix@.drop_last().push(prefix@.last()) =~= prefix@);
                    steps = steps.push(step);
                }
            },
            Err(e) => {
                proof {
                    lemma_gathered_failed(start, now, steps, prefix@, step);
                    steps = steps.push(step);
                }
                return Err(e);
            },
        }
        let ghost now = gen@;
        let (next, Ghost(step)) = next_item::<T13>(gen, &mut prefix);
        match next {
            Ok(_) => {
                proof {
                    lemma_gathered_more(
                        start,
                        now,
                        steps,
                        prefix@.drop_last(),
                        step,
                        prefix@.last(),
                    );
                    assert(prefix@.drop_last().push(prefix@.last()) =~= prefix@);
                    steps = steps.push(step);
                }
            },
            Err(e) => {
                proof {
                    lemma_gathered_failed(start, now, steps, prefix@, step);
                    steps = steps.push(step);
                }
                return Err(e);
            },
        }
        let ghost now = gen@;
        let (next, Ghost(step)) = next_item::<T14>(gen, &mut prefix);
        match next {
            Ok(_) => {
                proof {
                    lemma_gathered_more(
                        start,
                        now,
                        steps,
                        prefix@.drop_last(),
                        step,
                        prefix@.last(),
                    );
                    assert(prefix@.drop_last().push(prefix@.last()) =~= prefix@);
                    steps = steps.push(step);
                }
            },
            Err(e) => {
                proof {
                    lemma_gathered_failed(start, now, steps, prefix@, step);
                    steps = steps.push(step);
                }
                return Err(e);
            },
        }
        let ghost now = gen@;
        let (next, Ghost(step)) = next_item::<T15>(gen, &mut prefix);
        match next {
            Ok(_) => {
                proof {
                    lemma_gathered_more(
                        start,
                        now,
                        steps,
                        prefix@.drop_last(),
                        step,
                        prefix@.last(),
                    );
                    assert(prefix@.drop_last().push(prefix@.last()) =~= prefix@);
                    steps = steps.push(step);
                }
            },
            Err(e) => {
                proof {
                    lemma_gathered_failed(start, now, steps, prefix@, step);
                    steps = steps.push(step);
                }
                return Err(e);
            },
        }
        Ok(tuple_validator(prefix, 16))
    }
}

} // verus!
