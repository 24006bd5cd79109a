//! Validator trees: the constraint trees that describe the legal encodings
//! of a shape, in a form whose references the library can reach.

use vstd::prelude::*;

verus! {

broadcast use {vstd::std_specs::vec::group_vec_axioms, vstd::seq::group_seq_axioms};

/// A validator. The composite kinds hold their sub-validators here, where
/// the library can reach them; the constraints of the primitive kinds, and
/// those that a composite kind puts on the value itself, are fog-pack's own
/// values and are carried through untouched.
#[derive(Debug, PartialEq)]
#[allow(inconsistent_fields)]
pub enum ValidatorTree {
    /// Accepts any value.
    Any,
    /// Accepts the null value.
    Null,
    /// A primitive kind with its constraints. The value holds no
    /// sub-validator.
    Leaf(fog_pack::validator::Validator),
    /// A reference to a named entry of the type table.
    Ref(String),
    /// An array with validators for its items.
    Array {
        contains: Vec<ValidatorTree>,
        items: Box<ValidatorTree>,
        prefix: Vec<ValidatorTree>,
        rules: fog_pack::validator::ArrayValidator,
    },
    /// A map with validators for its fields and for all other values.
    Mapping {
        req: Vec<(String, ValidatorTree)>,
        opt: Vec<(String, ValidatorTree)>,
        values: Option<Box<ValidatorTree>>,
        rules: fog_pack::validator::MapValidator,
    },
    /// A hash, with a validator for the document it links to.
    Hash { link: Option<Box<ValidatorTree>>, rules: fog_pack::validator::HashValidator },
    /// An enum: variant names with the validator of each payload.
    Enum(Vec<(String, Option<ValidatorTree>)>),
    /// Alternatives, tried in order.
    Multi(Vec<ValidatorTree>),
}

/// A validator tree as a mathematical value.
#[verifier::ext_equal]
#[allow(inconsistent_fields)]
pub enum TreeView {
    Any,
    Null,
    Leaf(fog_pack::validator::Validator),
    Ref(Seq<char>),
    Array {
        contains: Seq<TreeView>,
        items: Box<TreeView>,
        prefix: Seq<TreeView>,
        rules: fog_pack::validator::ArrayValidator,
    },
    Mapping {
        req: Seq<(Seq<char>, TreeView)>,
        opt: Seq<(Seq<char>, TreeView)>,
        values: Option<Box<TreeView>>,
        rules: fog_pack::validator::MapValidator,
    },
    Hash { link: Option<Box<TreeView>>, rules: fog_pack::validator::HashValidator },
    Enum(Seq<(Seq<char>, Option<TreeView>)>),
    Multi(Seq<TreeView>),
}

/// The values of a list of validator trees.
pub open spec fn list_view(list: Seq<ValidatorTree>) -> Seq<TreeView>
    decreases list, 0int,
{
    Seq::new(
        list.len(),
        |i: int|
            if 0 <= i < list.len() {
                list[i].model()
            } else {
                TreeView::Any
            },
    )
}

/// The values of a list of named validator trees.
pub open spec fn fields_view(list: Seq<(String, ValidatorTree)>) -> Seq<(Seq<char>, TreeView)>
    decreases list, 0int,
{
    Seq::new(
        list.len(),
        |i: int|
            if 0 <= i < list.len() {
                (list[i].0@, list[i].1.model())
            } else {
                (Seq::empty(), TreeView::Any)
            },
    )
}

/// The values of a list of enum variants.
pub open spec fn variants_view(list: Seq<(String, Option<ValidatorTree>)>) -> Seq<
    (Seq<char>, Option<TreeView>),
>
    decreases list, 0int,
{
    Seq::new(
        list.len(),
        |i: int|
            if 0 <= i < list.len() {
                (
                    list[i].0@,
                    match list[i].1 {
                        Some(t) => Some(t.model()),
                        None => None,
                    },
                )
            } else {
                (Seq::empty(), None)
            },
    )
}

/// The value of a validator tree that may be absent.
pub open spec fn boxed_view(tree: Option<Box<ValidatorTree>>) -> Option<Box<TreeView>>
    decreases tree, 0int,
{
    match tree {
        Some(t) => Some(Box::new(t.model())),
        None => None,
    }
}

impl ValidatorTree {
    /// The value of this tree.
    pub open spec fn model(&self) -> TreeView
        decreases self, 1int,
    {
        match self {
            ValidatorTree::Any => TreeView::Any,
            ValidatorTree::Null => TreeView::Null,
            ValidatorTree::Leaf(v) => TreeView::Leaf(*v),
            ValidatorTree::Ref(name) => TreeView::Ref(name@),
            ValidatorTree::Array { contains, items, prefix, rules } => TreeView::Array {
                contains: list_view(contains@),
                items: Box::new(items.model()),
                prefix: list_view(prefix@),
                rules: *rules,
            },
            ValidatorTree::Mapping { req, opt, values, rules } => TreeView::Mapping {
                req: fields_view(req@),
                opt: fields_view(opt@),
                values: boxed_view(*values),
                rules: *rules,
            },
            ValidatorTree::Hash { link, rules } => TreeView::Hash {
                link: boxed_view(*link),
                rules: *rules,
            },
            ValidatorTree::Enum(variants) => TreeView::Enum(variants_view(variants@)),
            ValidatorTree::Multi(list) => TreeView::Multi(list_view(list@)),
        }
    }
}

impl View for ValidatorTree {
    type V = TreeView;

    open spec fn view(&self) -> TreeView {
        self.model()
    }
}

/// The name that `map` gives for the reference `name`, or `name` itself
/// where it gives none.
pub open spec fn rename_ref(name: Seq<char>, map: Map<Seq<char>, Seq<char>>) -> Seq<char> {
    if map.contains_key(name) {
        map[name]
    } else {
        name
    }
}

/// `tree` with every reference in it renamed by `map`.
pub open spec fn rename_refs(tree: TreeView, map: Map<Seq<char>, Seq<char>>) -> TreeView
    decreases tree, 1int,
{
    match tree {
        TreeView::Ref(name) => TreeView::Ref(rename_ref(name, map)),
        TreeView::Array { contains, items, prefix, rules } => TreeView::Array {
            contains: rename_list(contains, map),
            items: Box::new(rename_refs(*items, map)),
            prefix: rename_list(prefix, map),
            rules,
        },
        TreeView::Mapping { req, opt, values, rules } => TreeView::Mapping {
            req: rename_fields(req, map),
            opt: rename_fields(opt, map),
            values: rename_boxed(values, map),
            rules,
        },
        TreeView::Hash { link, rules } => TreeView::Hash { link: rename_boxed(link, map), rules },
        TreeView::Enum(variants) => TreeView::Enum(rename_variants(variants, map)),
        TreeView::Multi(list) => TreeView::Multi(rename_list(list, map)),
        other => other,
    }
}

/// Each tree of `list` with its references renamed by `map`.
pub open spec fn rename_list(list: Seq<TreeView>, map: Map<Seq<char>, Seq<char>>) -> Seq<TreeView>
    decreases list, 0int,
{
    Seq::new(
        list.len(),
        |i: int|
            if 0 <= i < list.len() {
                rename_refs(list[i], map)
            } else {
                TreeView::Any
            },
    )
}

/// Each field of `list` with the references of its tree renamed by `map`.
pub open spec fn rename_fields(
    list: Seq<(Seq<char>, TreeView)>,
    map: Map<Seq<char>, Seq<char>>,
) -> Seq<(Seq<char>, TreeView)>
    decreases list, 0int,
{
    Seq::new(
        list.len(),
        |i: int|
            if 0 <= i < list.len() {
                (list[i].0, rename_refs(list[i].1, map))
            } else {
                (Seq::empty(), TreeView::Any)
            },
    )
}

/// Each variant of `list` with the references of its payload renamed by
/// `map`.
pub open spec fn rename_variants(
    list: Seq<(Seq<char>, Option<TreeView>)>,
    map: Map<Seq<char>, Seq<char>>,
) -> Seq<(Seq<char>, Option<TreeView>)>
    decreases list, 0int,
{
    Seq::new(
        list.len(),
        |i: int|
            if 0 <= i < list.len() {
                (
                    list[i].0,
                    match list[i].1 {
                        Some(t) => Some(rename_refs(t, map)),
                        None => None,
                    },
                )
            } else {
                (Seq::empty(), None)
            },
    )
}

/// The tree, if there is one, with its references renamed by `map`.
pub open spec fn rename_boxed(tree: Option<Box<TreeView>>, map: Map<Seq<char>, Seq<char>>) -> Option<
    Box<TreeView>,
>
    decreases tree, 0int,
{
    match tree {
        Some(t) => Some(Box::new(rename_refs(*t, map))),
        None => None,
    }
}

/// Whether `tree` holds a reference to `name` anywhere.
pub open spec fn refers_to(tree: TreeView, name: Seq<char>) -> bool
    decreases tree, 1int,
{
    match tree {
        TreeView::Ref(target) => target == name,
        TreeView::Array { contains, items, prefix, rules } => list_refers_to(contains, name)
            || refers_to(*items, name) || list_refers_to(prefix, name),
        TreeView::Mapping { req, opt, values, rules } => fields_refer_to(req, name)
            || fields_refer_to(opt, name) || boxed_refers_to(values, name),
        TreeView::Hash { link, rules } => boxed_refers_to(link, name),
        TreeView::Enum(variants) => variants_refer_to(variants, name),
        TreeView::Multi(list) => list_refers_to(list, name),
        _ => false,
    }
}

/// Whether a tree of `list` holds a reference to `name`.
pub open spec fn list_refers_to(list: Seq<TreeView>, name: Seq<char>) -> bool
    decreases list, 0int,
{
    exists|i: int| 0 <= i < list.len() && refers_to(#[trigger] list[i], name)
}

/// Whether the tree of a field of `list` holds a reference to `name`.
pub open spec fn fields_refer_to(list: Seq<(Seq<char>, TreeView)>, name: Seq<char>) -> bool
    decreases list, 0int,
{
    exists|i: int| 0 <= i < list.len() && refers_to((#[trigger] list[i]).1, name)
}

/// Whether the payload of a variant of `list` holds a reference to `name`.
pub open spec fn variants_refer_to(
    list: Seq<(Seq<char>, Option<TreeView>)>,
    name: Seq<char>,
) -> bool
    decreases list, 0int,
{
    exists|i: int|
        0 <= i < list.len() && ((#[trigger] list[i]).1 matches Some(t) && refers_to(t, name))
}

/// Whether the tree, if there is one, holds a reference to `name`.
pub open spec fn boxed_refers_to(tree: Option<Box<TreeView>>, name: Seq<char>) -> bool
    decreases tree, 0int,
{
    match tree {
        Some(t) => refers_to(*t, name),
        None => false,
    }
}

} // verus!
