//! The way from a validator tree to fog-pack's own validator.

use vstd::prelude::*;
use crate::fog::{
    any_validator, array_of, array_validator, copy_validator, enum_of, enum_validator, hash_of,
    hash_validator, map_of, map_validator, multi_of, multi_validator, null_validator,
    ref_validator, reference_to,
};
use crate::tree::{boxed_view, fields_view, list_view, variants_view, TreeView, ValidatorTree};

verus! {

broadcast use {vstd::std_specs::vec::group_vec_axioms, vstd::seq::group_seq_axioms};

/// Whether `v` is the validator `tree` in fog-pack's own form: a leaf is
/// `v` itself, a reference is fog-pack's reference to the same name, and a
/// composite kind is what fog-pack makes of the same constraints and of its
/// sub-validators in fog-pack's form, each in its place. Of the two kinds
/// without parts, any value and the null value, nothing is said here.
pub open spec fn in_fog_form(tree: TreeView, v: fog_pack::validator::Validator) -> bool
    decreases tree, 1int,
{
    match tree {
        TreeView::Any => true,
        TreeView::Null => true,
        TreeView::Leaf(leaf) => v == leaf,
        TreeView::Ref(name) => v == reference_to(name),
        TreeView::Array { contains, items, prefix, rules } => exists|
            held: Seq<fog_pack::validator::Validator>,
            each: fog_pack::validator::Validator,
            first: Seq<fog_pack::validator::Validator>,
        |
            {
                &&& list_in_fog_form(contains, held)
                &&& in_fog_form(*items, each)
                &&& list_in_fog_form(prefix, first)
                &&& v == #[trigger] array_of(rules, held, each, first)
            },
        TreeView::Mapping { req, opt, values, rules } => exists|
            needed: Seq<(String, fog_pack::validator::Validator)>,
            allowed: Seq<(String, fog_pack::validator::Validator)>,
            others: Option<fog_pack::validator::Validator>,
        |
            {
                &&& fields_in_fog_form(req, needed)
                &&& fields_in_fog_form(opt, allowed)
                &&& boxed_in_fog_form(values, others)
                &&& v == #[trigger] map_of(rules, needed, allowed, others)
            },
        TreeView::Hash { link, rules } => exists|linked: Option<fog_pack::validator::Validator>|
            boxed_in_fog_form(link, linked) && v == #[trigger] hash_of(rules, linked),
        TreeView::Enum(variants) => exists|
            list: Seq<(String, Option<fog_pack::validator::Validator>)>,
        | variants_in_fog_form(variants, list) && v == #[trigger] enum_of(list),
        TreeView::Multi(list) => exists|tried: Seq<fog_pack::validator::Validator>|
            list_in_fog_form(list, tried) && v == #[trigger] multi_of(tried),
    }
}

/// Whether `converted` holds each tree of `list` in fog-pack's form, in the
/// same order.
pub open spec fn list_in_fog_form(
    list: Seq<TreeView>,
    converted: Seq<fog_pack::validator::Validator>,
) -> bool
    decreases list, 0int,
{
    &&& converted.len() == list.len()
    &&& forall|i: int| 0 <= i < list.len() ==> in_fog_form(list[i], #[trigger] converted[i])
}

/// Whether `converted` holds each field of `list` under its name, with its
/// tree in fog-pack's form, in the same order.
pub open spec fn fields_in_fog_form(
    list: Seq<(Seq<char>, TreeView)>,
    converted: Seq<(String, fog_pack::validator::Validator)>,
) -> bool
    decreases list, 0int,
{
    &&& converted.len() == list.len()
    &&& forall|i: int|
        0 <= i < list.len() ==> (#[trigger] converted[i]).0@ == list[i].0 && in_fog_form(
            list[i].1,
            converted[i].1,
        )
}

/// Whether `converted` holds each variant of `list` under its name, with
/// its payload, where it has one, in fog-pack's form, in the same order.
pub open spec fn variants_in_fog_form(
    list: Seq<(Seq<char>, Option<TreeView>)>,
    converted: Seq<(String, Option<fog_pack::validator::Validator>)>,
) -> bool
    decreases list, 0int,
{
    &&& converted.len() == list.len()
    &&& forall|i: int|
        0 <= i < list.len() ==> (#[trigger] converted[i]).0@ == list[i].0 && match list[i].1 {
            Some(inner) => converted[i].1 matches Some(v) && in_fog_form(inner, v),
            None => converted[i].1 is None,
        }
}

/// Whether `converted` is the tree, if there is one, in fog-pack's form.
pub open spec fn boxed_in_fog_form(
    tree: Option<Box<TreeView>>,
    converted: Option<fog_pack::validator::Validator>,
) -> bool
    decreases tree, 0int,
{
    match tree {
        Some(inner) => converted matches Some(v) && in_fog_form(*inner, v),
        None => converted is None,
    }
}

impl ValidatorTree {
    /// The same validator in fog-pack's own form: each kind becomes
    /// fog-pack's validator of that kind, with the same sub-validators in
    /// the same places and the same constraints. fog-pack keeps the fields
    /// of a map and the variants of an enum by name: of two with one name
    /// the later one stays. A leaf is fog-pack's validator already, and is
    /// handed back as it is; a reference becomes fog-pack's reference to the
    /// same name.
    pub fn to_validator(&self) -> (v: fog_pack::validator::Validator)
        ensures
            in_fog_form(self@, v),
        decreases self, 1int,
    {
        match self {
            ValidatorTree::Any => any_validator(),
            ValidatorTree::Null => null_validator(),
            ValidatorTree::Leaf(leaf) => copy_validator(leaf),
            ValidatorTree::Ref(name) => ref_validator(name.clone()),
            ValidatorTree::Array { contains, items, prefix, rules } => {
                let held = convert_list(contains, Ghost(*self));
                let each = items.to_validator();
                let first = convert_list(prefix, Ghost(*self));
                let ghost (held_as, first_as) = (held@, first@);
                let v = array_validator(rules, held, each, first);
                assert(v == array_of(self@->Array_rules, held_as, each, first_as));
                v
            },
            ValidatorTree::Mapping { req, opt, values, rules } => {
                let needed = convert_fields(req, Ghost(*self));
                let allowed = convert_fields(opt, Ghost(*self));
                let others = convert_boxed(values, Ghost(*self));
                let ghost (needed_as, allowed_as) = (needed@, allowed@);
                let v = map_validator(rules, needed, allowed, others);
                assert(v == map_of(self@->Mapping_rules, needed_as, allowed_as, others));
                v
            },
            ValidatorTree::Hash { link, rules } => {
                let linked = convert_boxed(link, Ghost(*self));
                let v = hash_validator(rules, linked);
                assert(v == hash_of(self@->Hash_rules, linked));
                v
            },
            ValidatorTree::Enum(variants) => {
                let list = convert_variants(variants, Ghost(*self));
                let ghost list_as = list@;
                let v = enum_validator(list);
                assert(v == enum_of(list_as));
                v
            },
            ValidatorTree::Multi(list) => {
                let tried = convert_list(list, Ghost(*self));
                let ghost tried_as = tried@;
                let v = multi_validator(tried);
                assert(v == multi_of(tried_as));
                v
            },
        }
    }
}

/// Each tree of `list` in fog-pack's form, in the same order.
fn convert_list(list: &Vec<ValidatorTree>, Ghost(whole): Ghost<ValidatorTree>) -> (converted: Vec<
    fog_pack::validator::Validator,
>)
    requires
        decreases_to!(whole => *list),
    ensures
        list_in_fog_form(list_view(list@), converted@),
    decreases whole, 0int,
{
    let mut converted: Vec<fog_pack::validator::Validator> = Vec::new();
    let mut i: usize = 0;
    while i < list.len()
        invariant
            i <= list.len(),
            converted@.len() == i,
            forall|j: int| 0 <= j < i ==> in_fog_form(list@[j]@, #[trigger] converted@[j]),
            decreases_to!(whole => *list),
        decreases list.len() - i,
    {
        converted.push(list[i].to_validator());
        i = i + 1;
    }
    converted
}

/// Each field of `list` with its tree in fog-pack's form, in the same
/// order.
fn convert_fields(list: &Vec<(String, ValidatorTree)>, Ghost(whole): Ghost<ValidatorTree>) -> (converted:
    Vec<(String, fog_pack::validator::Validator)>)
    requires
        decreases_to!(whole => *list),
    ensures
        fields_in_fog_form(fields_view(list@), converted@),
    decreases whole, 0int,
{
    let mut converted: Vec<(String, fog_pack::validator::Validator)> = Vec::new();
    let mut i: usize = 0;
    while i < list.len()
        invariant
            i <= list.len(),
            converted@.len() == i,
            forall|j: int|
                0 <= j < i ==> (#[trigger] converted@[j]).0@ == list@[j].0@ && in_fog_form(
                    list@[j].1@,
                    converted@[j].1,
                ),
            decreases_to!(whole => *list),
        decreases list.len() - i,
    {
        converted.push((list[i].0.clone(), list[i].1.to_validator()));
        i = i + 1;
    }
    converted
}

/// Each variant of `list` with its payload in fog-pack's form, in the same
/// order.
fn convert_variants(
    list: &Vec<(String, Option<ValidatorTree>)>,
    Ghost(whole): Ghost<ValidatorTree>,
) -> (converted: Vec<(String, Option<fog_pack::validator::Validator>)>)
    requires
        decreases_to!(whole => *list),
    ensures
        variants_in_fog_form(variants_view(list@), converted@),
    decreases whole, 0int,
{
    let mut converted: Vec<(String, Option<fog_pack::validator::Validator>)> = Vec::new();
    let mut i: usize = 0;
    while i < list.len()
        invariant
            i <= list.len(),
            converted@.len() == i,
            forall|j: int|
                0 <= j < i ==> (#[trigger] converted@[j]).0@ == list@[j].0@ && match list@[j].1 {
                    Some(inner) => converted@[j].1 matches Some(v) && in_fog_form(inner@, v),
                    None => converted@[j].1 is None,
                },
            decreases_to!(whole => *list),
        decreases list.len() - i,
    {
        let payload: Option<fog_pack::validator::Validator> = match &list[i].1 {
            Some(inner) => Some(inner.to_validator()),
            None => None,
        };
        converted.push((list[i].0.clone(), payload));
        i = i + 1;
    }
    converted
}

/// The tree, if there is one, in fog-pack's form.
fn convert_boxed(tree: &Option<Box<ValidatorTree>>, Ghost(whole): Ghost<ValidatorTree>) -> (converted:
    Option<fog_pack::validator::Validator>)
    requires
        decreases_to!(whole => *tree),
    ensures
        boxed_in_fog_form(boxed_view(*tree), converted),
    decreases whole, 0int,
{
    match tree {
        Some(inner) => Some(inner.to_validator()),
        None => None,
    }
}

} // verus!
