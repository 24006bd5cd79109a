//! The fix-up pass: every reference in a validator tree is rewritten to the
//! shortened name of the entry it points to.

use vstd::prelude::*;
use crate::text::str_eq;
use crate::tree::{
    boxed_refers_to, boxed_view, fields_refer_to, fields_view, list_refers_to, list_view,
    refers_to, rename_boxed, rename_fields, rename_list, rename_ref, rename_refs,
    rename_variants, variants_refer_to, variants_view, TreeView, ValidatorTree,
};

verus! {

broadcast use {vstd::std_specs::vec::group_vec_axioms, vstd::seq::group_seq_axioms};

/// The map that a list of `(from, to)` pairs of names stands for. Where a
/// `from` occurs more than once, its first pair counts.
pub open spec fn names_map(pairs: Seq<(Seq<char>, Seq<char>)>) -> Map<Seq<char>, Seq<char>>
    decreases pairs.len(),
{
    if pairs.len() == 0 {
        Map::empty()
    } else {
        let init = names_map(pairs.drop_last());
        if init.contains_key(pairs.last().0) {
            init
        } else {
            init.insert(pairs.last().0, pairs.last().1)
        }
    }
}

proof fn lemma_first_name_counts(pairs: Seq<(Seq<char>, Seq<char>)>, at: int, upto: int)
    requires
        0 <= at < upto <= pairs.len(),
        !names_map(pairs.take(at)).contains_key(pairs[at].0),
    ensures
        names_map(pairs.take(upto)).contains_key(pairs[at].0),
        names_map(pairs.take(upto))[pairs[at].0] == pairs[at].1,
    decreases upto - at,
{
    let now = pairs.take(upto);
    assert(now.drop_last() =~= pairs.take(upto - 1));
    if upto - 1 > at {
        lemma_first_name_counts(pairs, at, upto - 1);
    }
}

proof fn lemma_absent_name(pairs: Seq<(Seq<char>, Seq<char>)>, key: Seq<char>)
    requires
        forall|i: int| 0 <= i < pairs.len() ==> pairs[i].0 != key,
    ensures
        !names_map(pairs).contains_key(key),
    decreases pairs.len(),
{
    if pairs.len() > 0 {
        lemma_absent_name(pairs.drop_last(), key);
    }
}

/// The renamings of the fix-up pass: from the full text of a name to its
/// shortened text.
#[derive(Debug)]
pub struct Fixups {
    pairs: Vec<(String, String)>,
}

impl Fixups {
    spec fn pair_views(&self) -> Seq<(Seq<char>, Seq<char>)> {
        self.pairs@.map_values(|p: (String, String)| (p.0@, p.1@))
    }
}

impl View for Fixups {
    type V = Map<Seq<char>, Seq<char>>;

    closed spec fn view(&self) -> Map<Seq<char>, Seq<char>> {
        names_map(self.pair_views())
    }
}

impl Fixups {
    /// The map that renames nothing.
    pub fn new() -> (fixups: Fixups)
        ensures
            fixups@ == Map::<Seq<char>, Seq<char>>::empty(),
    {
        Fixups { pairs: Vec::new() }
    }

    /// What `name` is renamed to, if it is renamed.
    pub fn get(&self, name: &str) -> (found: Option<&String>)
        ensures
            found is Some <==> self@.contains_key(name@),
            found matches Some(to) ==> to@ == self@[name@],
    {
        let mut i: usize = 0;
        while i < self.pairs.len()
            invariant
                i <= self.pairs.len(),
                forall|j: int| 0 <= j < i ==> self.pair_views()[j].0 != name@,
            decreases self.pairs.len() - i,
        {
            if str_eq(self.pairs[i].0.as_str(), name) {
                proof {
                    let views = self.pair_views();
                    lemma_absent_name(views.take(i as int), name@);
                    lemma_first_name_counts(views, i as int, views.len() as int);
                    assert(views.take(views.len() as int) =~= views);
                }
                return Some(&self.pairs[i].1);
            }
            i = i + 1;
        }
        proof {
            lemma_absent_name(self.pair_views(), name@);
        }
        None
    }

    /// Adds a renaming, unless `from` is renamed already.
    pub fn insert(&mut self, from: String, to: String)
        ensures
            final(self)@ == if old(self)@.contains_key(from@) {
                old(self)@
            } else {
                old(self)@.insert(from@, to@)
            },
    {
        let ghost before = self.pair_views();
        self.pairs.push((from, to));
        proof {
            let after = self.pair_views();
            assert(after.drop_last() =~= before);
            assert(after.last() == (from@, to@));
        }
    }
}

/// Every reference in a renamed tree is the new name of a reference in the
/// tree before.
pub proof fn lemma_renamed_ref_origin(
    tree: TreeView,
    map: Map<Seq<char>, Seq<char>>,
    name: Seq<char>,
) -> (from: Seq<char>)
    requires
        refers_to(rename_refs(tree, map), name),
    ensures
        refers_to(tree, from),
        rename_ref(from, map) == name,
    decreases tree, 1int,
{
    reveal_with_fuel(refers_to, 2);
    reveal_with_fuel(rename_refs, 2);
    reveal_with_fuel(boxed_refers_to, 2);
    reveal_with_fuel(rename_boxed, 2);
    reveal_with_fuel(variants_refer_to, 2);
    reveal_with_fuel(rename_variants, 2);
    match tree {
        TreeView::Ref(target) => target,
        TreeView::Array { contains, items, prefix, rules } => {
            if list_refers_to(rename_list(contains, map), name) {
                lemma_renamed_list_origin(contains, map, name)
            } else if refers_to(rename_refs(*items, map), name) {
                lemma_renamed_ref_origin(*items, map, name)
            } else {
                lemma_renamed_list_origin(prefix, map, name)
            }
        },
        TreeView::Mapping { req, opt, values, rules } => {
            if fields_refer_to(rename_fields(req, map), name) {
                lemma_renamed_fields_origin(req, map, name)
            } else if fields_refer_to(rename_fields(opt, map), name) {
                lemma_renamed_fields_origin(opt, map, name)
            } else {
                lemma_renamed_ref_origin(*values->Some_0, map, name)
            }
        },
        TreeView::Hash { link, rules } => lemma_renamed_ref_origin(*link->Some_0, map, name),
        TreeView::Enum(variants) => {
            let renamed = rename_variants(variants, map);
            let i = choose|i: int|
                0 <= i < renamed.len() && ((#[trigger] renamed[i]).1 matches Some(t) && refers_to(
                    t,
                    name,
                ));
            let from = lemma_renamed_ref_origin(variants[i].1->Some_0, map, name);
            assert(variants[i].1 matches Some(t) && refers_to(t, from));
            from
        },
        TreeView::Multi(list) => lemma_renamed_list_origin(list, map, name),
        _ => name,
    }
}

proof fn lemma_renamed_list_origin(
    list: Seq<TreeView>,
    map: Map<Seq<char>, Seq<char>>,
    name: Seq<char>,
) -> (from: Seq<char>)
    requires
        list_refers_to(rename_list(list, map), name),
    ensures
        list_refers_to(list, from),
        rename_ref(from, map) == name,
    decreases list, 0int,
{
    let renamed = rename_list(list, map);
    let i = choose|i: int| 0 <= i < renamed.len() && refers_to(#[trigger] renamed[i], name);
    let from = lemma_renamed_ref_origin(list[i], map, name);
    assert(refers_to(list[i], from));
    from
}

proof fn lemma_renamed_fields_origin(
    list: Seq<(Seq<char>, TreeView)>,
    map: Map<Seq<char>, Seq<char>>,
    name: Seq<char>,
) -> (from: Seq<char>)
    requires
        fields_refer_to(rename_fields(list, map), name),
    ensures
        fields_refer_to(list, from),
        rename_ref(from, map) == name,
    decreases list, 0int,
{
    let renamed = rename_fields(list, map);
    let i = choose|i: int| 0 <= i < renamed.len() && refers_to((#[trigger] renamed[i]).1, name);
    let from = lemma_renamed_ref_origin(list[i].1, map, name);
    assert(refers_to(list[i].1, from));
    from
}

/// After the fix-up no reference names an entry by a name that was
/// shortened away, as long as no reference is renamed to a name that is
/// itself renamed.
pub proof fn lemma_no_stale_refs(tree: TreeView, map: Map<Seq<char>, Seq<char>>, name: Seq<char>)
    requires
        forall|from: Seq<char>|
            refers_to(tree, from) && map.contains_key(from) ==> !map.contains_key(map[from]),
        refers_to(rename_refs(tree, map), name),
    ensures
        !map.contains_key(name),
{
    let from = lemma_renamed_ref_origin(tree, map, name);
}

/// The fix-up renames every reference: where the tree before refers to
/// `from`, the tree after refers to the new name of `from`.
pub proof fn lemma_refs_renamed(tree: TreeView, map: Map<Seq<char>, Seq<char>>, from: Seq<char>)
    requires
        refers_to(tree, from),
    ensures
        refers_to(rename_refs(tree, map), rename_ref(from, map)),
    decreases tree, 1int,
{
    reveal_with_fuel(refers_to, 2);
    reveal_with_fuel(rename_refs, 2);
    reveal_with_fuel(boxed_refers_to, 2);
    reveal_with_fuel(rename_boxed, 2);
    reveal_with_fuel(variants_refer_to, 2);
    reveal_with_fuel(rename_variants, 2);
    let to = rename_ref(from, map);
    match tree {
        TreeView::Array { contains, items, prefix, rules } => {
            if list_refers_to(contains, from) {
                lemma_list_refs_renamed(contains, map, from);
            } else if refers_to(*items, from) {
                lemma_refs_renamed(*items, map, from);
            } else {
                lemma_list_refs_renamed(prefix, map, from);
            }
        },
        TreeView::Mapping { req, opt, values, rules } => {
            if fields_refer_to(req, from) {
                lemma_fields_refs_renamed(req, map, from);
            } else if fields_refer_to(opt, from) {
                lemma_fields_refs_renamed(opt, map, from);
            } else {
                lemma_refs_renamed(*values->Some_0, map, from);
            }
        },
        TreeView::Hash { link, rules } => {
            lemma_refs_renamed(*link->Some_0, map, from);
        },
        TreeView::Enum(variants) => {
            let i = choose|i: int|
                0 <= i < variants.len() && ((#[trigger] variants[i]).1 matches Some(t)
                    && refers_to(t, from));
            lemma_refs_renamed(variants[i].1->Some_0, map, from);
            let renamed = rename_variants(variants, map);
            assert(renamed[i].1 matches Some(t) && refers_to(t, to));
        },
        TreeView::Multi(list) => {
            lemma_list_refs_renamed(list, map, from);
        },
        _ => {},
    }
}

proof fn lemma_list_refs_renamed(
    list: Seq<TreeView>,
    map: Map<Seq<char>, Seq<char>>,
    from: Seq<char>,
)
    requires
        list_refers_to(list, from),
    ensures
        list_refers_to(rename_list(list, map), rename_ref(from, map)),
    decreases list, 0int,
{
    let i = choose|i: int| 0 <= i < list.len() && refers_to(#[trigger] list[i], from);
    lemma_refs_renamed(list[i], map, from);
    assert(refers_to(rename_list(list, map)[i], rename_ref(from, map)));
}

proof fn lemma_fields_refs_renamed(
    list: Seq<(Seq<char>, TreeView)>,
    map: Map<Seq<char>, Seq<char>>,
    from: Seq<char>,
)
    requires
        fields_refer_to(list, from),
    ensures
        fields_refer_to(rename_fields(list, map), rename_ref(from, map)),
    decreases list, 0int,
{
    let i = choose|i: int| 0 <= i < list.len() && refers_to((#[trigger] list[i]).1, from);
    lemma_refs_renamed(list[i].1, map, from);
    assert(refers_to(rename_fields(list, map)[i].1, rename_ref(from, map)));
}

/// Rewrites every reference in the trees of `list`.
fn fixup_list(fixups: &Fixups, list: &mut Vec<ValidatorTree>, Ghost(whole): Ghost<ValidatorTree>)
    requires
        decreases_to!(whole => *old(list)),
    ensures
        list_view(final(list)@) == rename_list(list_view(old(list)@), fixups@),
    decreases whole, 0int,
{
    let ghost before = list@;
    let mut i: usize = 0;
    while i < list.len()
        invariant
            i <= list.len(),
            list@.len() == before.len(),
            before == old(list)@,
            decreases_to!(whole => *old(list)),
            forall|j: int| 0 <= j < i ==> (#[trigger] list@[j])@ == rename_refs(before[j]@, fixups@),
            forall|j: int| i <= j < list@.len() ==> list@[j] == before[j],
        decreases list.len() - i,
    {
        fixup(fixups, &mut list[i]);
        i = i + 1;
    }
    assert(list_view(list@) =~= rename_list(list_view(before), fixups@));
}

/// Rewrites every reference in the trees of the fields of `list`.
fn fixup_fields(
    fixups: &Fixups,
    list: &mut Vec<(String, ValidatorTree)>,
    Ghost(whole): Ghost<ValidatorTree>,
)
    requires
        decreases_to!(whole => *old(list)),
    ensures
        fields_view(final(list)@) == rename_fields(fields_view(old(list)@), fixups@),
    decreases whole, 0int,
{
    let ghost before = list@;
    let mut i: usize = 0;
    while i < list.len()
        invariant
            i <= list.len(),
            list@.len() == before.len(),
            before == old(list)@,
            decreases_to!(whole => *old(list)),
            forall|j: int|
                0 <= j < i ==> (#[trigger] list@[j]).0 == before[j].0 && list@[j].1@
                    == rename_refs(before[j].1@, fixups@),
            forall|j: int| i <= j < list@.len() ==> list@[j] == before[j],
        decreases list.len() - i,
    {
        fixup(fixups, &mut list[i].1);
        i = i + 1;
    }
    assert(fields_view(list@) =~= rename_fields(fields_view(before), fixups@));
}

/// Rewrites every reference in the payloads of the variants of `list`.
fn fixup_variants(
    fixups: &Fixups,
    list: &mut Vec<(String, Option<ValidatorTree>)>,
    Ghost(whole): Ghost<ValidatorTree>,
)
    requires
        decreases_to!(whole => *old(list)),
    ensures
        variants_view(final(list)@) == rename_variants(variants_view(old(list)@), fixups@),
    decreases whole, 0int,
{
    let ghost before = list@;
    let mut i: usize = 0;
    while i < list.len()
        invariant
            i <= list.len(),
            list@.len() == before.len(),
            before == old(list)@,
            decreases_to!(whole => *old(list)),
            forall|j: int|
                0 <= j < i ==> (#[trigger] list@[j]).0 == before[j].0 && (match (
                    list@[j].1,
                    before[j].1,
                ) {
                    (Some(now), Some(then)) => now@ == rename_refs(then@, fixups@),
                    (None, None) => true,
                    _ => false,
                }),
            forall|j: int| i <= j < list@.len() ==> list@[j] == before[j],
        decreases list.len() - i,
    {
        match &mut list[i].1 {
            Some(payload) => {
                fixup(fixups, payload);
            },
            None => {},
        }
        i = i + 1;
    }
    assert(variants_view(list@) =~= rename_variants(variants_view(before), fixups@));
}

/// Rewrites every reference in the tree, if there is one.
fn fixup_boxed(
    fixups: &Fixups,
    tree: &mut Option<Box<ValidatorTree>>,
    Ghost(whole): Ghost<ValidatorTree>,
)
    requires
        decreases_to!(whole => *old(tree)),
    ensures
        boxed_view(*final(tree)) == rename_boxed(boxed_view(*old(tree)), fixups@),
    decreases whole, 0int,
{
    match tree {
        Some(inner) => {
            fixup(fixups, &mut **inner);
        },
        None => {},
    }
}

/// Rewrites every reference in `tree` for which `fixups` holds a renaming,
/// and leaves all else as it is.
pub fn fixup(fixups: &Fixups, tree: &mut ValidatorTree)
    ensures
        final(tree)@ == rename_refs(old(tree)@, fixups@),
    decreases *old(tree), 1int,
{
    let ghost whole = *tree;
    match tree {
        ValidatorTree::Ref(name) => {
            let renamed: Option<String> = match fixups.get(name.as_str()) {
                Some(to) => Some(to.clone()),
                None => None,
            };
            match renamed {
                Some(to) => {
                    *name = to;
                },
                None => {},
            }
        },
        ValidatorTree::Array { contains, items, prefix, rules } => {
            fixup_list(fixups, contains, Ghost(whole));
            fixup_list(fixups, prefix, Ghost(whole));
            fixup(fixups, &mut **items);
        },
        ValidatorTree::Mapping { req, opt, values, rules } => {
            fixup_fields(fixups, req, Ghost(whole));
            fixup_fields(fixups, opt, Ghost(whole));
            fixup_boxed(fixups, values, Ghost(whole));
        },
        ValidatorTree::Hash { link, rules } => {
            fixup_boxed(fixups, link, Ghost(whole));
        },
        ValidatorTree::Enum(variants) => {
            fixup_variants(fixups, variants, Ghost(whole));
        },
        ValidatorTree::Multi(list) => {
            fixup_list(fixups, list, Ghost(whole));
        },
        _ => {},
    }
    assert(tree@ =~= rename_refs(whole@, fixups@));
}

} // verus!
