//! The registry of the identifiers used in one run: one trie for each leaf
//! label.

use vstd::prelude::*;
use crate::name::{shorten_identifier, Identifier, IdentifierView};
use crate::rename::IdentRenames;
use crate::shorten::{
    in_walk, lemma_short_ids_differ, paths_of, rename_map, short_id, shortened, walk_entries,
    walk_short,
};
use crate::text::str_eq;
use crate::trie::{FixupState, IdentTracker};

verus! {

broadcast use {vstd::std_specs::vec::group_vec_axioms, vstd::seq::group_seq_axioms};

/// The identifiers registered so far, grouped by leaf label. Its value is
/// the set of these identifiers.
#[derive(Debug)]
pub struct IdentRegistry {
    tries: Vec<(&'static str, IdentTracker)>,
}

impl IdentRegistry {
    /// Whether `id` is registered in the trie at `i`.
    pub closed spec fn holds_at(&self, i: int, id: IdentifierView) -> bool {
        &&& 0 <= i < self.tries@.len()
        &&& self.tries@[i].0@ == id.name
        &&& self.tries@[i].1@.contains(id.mods)
    }

    /// No two tries have the same leaf label, and each is well formed.
    pub closed spec fn wf(&self) -> bool {
        &&& forall|i: int, j: int|
            0 <= i < j < self.tries@.len() ==> self.tries@[i].0@ != self.tries@[j].0@
        &&& forall|i: int| 0 <= i < self.tries@.len() ==> (#[trigger] self.tries@[i]).1.wf()
    }

    /// The leaf labels of the tries, in the order in which they are held.
    spec fn labels(&self) -> Seq<Seq<char>> {
        Seq::new(self.tries@.len(), |i: int| self.tries@[i].0@)
    }
}

impl View for IdentRegistry {
    type V = Set<IdentifierView>;

    closed spec fn view(&self) -> Set<IdentifierView> {
        Set::new(|id: IdentifierView| exists|i: int| self.holds_at(i, id))
    }
}

/// The renamings of `rename_map` for the identifiers with one of the leaf
/// labels `labels`.
pub open spec fn rename_map_through(ids: Set<IdentifierView>, labels: Seq<Seq<char>>) -> Map<
    IdentifierView,
    IdentifierView,
> {
    Map::new(
        |id: IdentifierView|
            ids.contains(id) && short_id(ids, id) != id && labels.contains(id.name),
        |id: IdentifierView| short_id(ids, id),
    )
}

/// The rename map gives every registered identifier its short form.
pub proof fn lemma_rename_map_shortens(ids: Set<IdentifierView>, id: IdentifierView)
    requires
        ids.contains(id),
    ensures
        shorten_identifier(id, rename_map(ids)) == short_id(ids, id),
{
}

/// The rename map does not depend on the order in which the identifiers
/// were registered, nor on how often.
pub proof fn lemma_register_order(ids: Set<IdentifierView>, a: IdentifierView, b: IdentifierView)
    ensures
        rename_map(ids.insert(a).insert(b)) == rename_map(ids.insert(b).insert(a)),
        rename_map(ids.insert(a).insert(a)) == rename_map(ids.insert(a)),
{
    assert(ids.insert(a).insert(b) =~= ids.insert(b).insert(a));
    assert(ids.insert(a).insert(a) =~= ids.insert(a));
}

/// After shortening, any two different registered identifiers are still
/// different.
pub proof fn lemma_renamed_ids_differ(
    ids: Set<IdentifierView>,
    a: IdentifierView,
    b: IdentifierView,
)
    requires
        ids.contains(a),
        ids.contains(b),
        a != b,
    ensures
        shorten_identifier(a, rename_map(ids)) != shorten_identifier(b, rename_map(ids)),
{
    lemma_short_ids_differ(ids, a, b);
}

impl IdentRegistry {
    /// The registry that holds no identifier.
    pub fn new() -> (registry: IdentRegistry)
        ensures
            registry.wf(),
            registry@ == Set::<IdentifierView>::empty(),
    {
        let registry = IdentRegistry { tries: Vec::new() };
        assert(registry@ =~= Set::<IdentifierView>::empty());
        registry
    }

    /// Registers an identifier.
    pub fn register(&mut self, id: &Identifier)
        requires
            old(self).wf(),
        ensures
            final(self).wf(),
            final(self)@ == old(self)@.insert(id@),
    {
        let ghost before = *self;
        let label: &'static str = id.name();
        let mut at: usize = 0;
        while at < self.tries.len() && !str_eq(self.tries[at].0, label)
            invariant
                at <= self.tries.len(),
                *self == before,
                forall|j: int| 0 <= j < at ==> self.tries@[j].0@ != label@,
            decreases self.tries.len() - at,
        {
            at = at + 1;
        }
        if at == self.tries.len() {
            self.tries.push((label, IdentTracker::default()));
        }
        let ghost grown = *self;
        assert forall|other: IdentifierView| #[trigger]
            grown@.contains(other) == before@.contains(other) by {
            assert forall|i: int| grown.holds_at(i, other) == before.holds_at(i, other) by {}
        }
        self.tries[at].1.modify(id.mods());
        proof {
            let i = at as int;
            assert forall|other: IdentifierView| #[trigger]
                self@.contains(other) == (grown@.contains(other) || other == id@) by {
                assert forall|j: int|
                    #![trigger self.holds_at(j, other)]
                    #![trigger grown.holds_at(j, other)]
                    self.holds_at(j, other) == (grown.holds_at(j, other) || (j == i && other
                        == id@)) by {
                    if j == i && other.name == label@ && other.mods == id@.mods {
                        assert(other =~= id@);
                    }
                }
                if other == id@ {
                    assert(self.holds_at(i, other));
                }
            }
            assert(self@ =~= before@.insert(id@));
        }
    }

    /// The paths registered in one trie are those of the registered
    /// identifiers with its leaf label.
    proof fn lemma_trie_paths(&self, i: int)
        requires
            self.wf(),
            0 <= i < self.tries@.len(),
        ensures
            self.tries@[i].1@ == paths_of(self@, self.tries@[i].0@),
    {
        let label = self.tries@[i].0@;
        assert forall|mods: Seq<Seq<char>>|
            self.tries@[i].1@.contains(mods) == self@.contains(
                IdentifierView { mods, name: label },
            ) by {
            let id = IdentifierView { mods, name: label };
            if self.tries@[i].1@.contains(mods) {
                assert(self.holds_at(i, id));
            }
            if self@.contains(id) {
                let j = choose|j: int| self.holds_at(j, id);
                if j < i {
                    assert(self.tries@[j].0@ != self.tries@[i].0@);
                } else if i < j {
                    assert(self.tries@[i].0@ != self.tries@[j].0@);
                }
            }
        }
        assert(self.tries@[i].1@ =~= paths_of(self@, label));
    }

    /// The walk over one trie finds the renamings of the identifiers with
    /// its leaf label.
    proof fn lemma_walk_renames(&self, i: int)
        requires
            self.wf(),
            0 <= i < self.tries@.len(),
        ensures
            rename_map_through(self@, self.labels().take(i + 1)) == rename_map_through(
                self@,
                self.labels().take(i),
            ).union_prefer_right(
                walk_entries(self.tries@[i].1@, Seq::empty(), Seq::empty(), self.tries@[i].0@),
            ),
    {
        let label = self.tries@[i].0@;
        let paths = self.tries@[i].1@;
        let done = self.labels().take(i);
        let more = self.labels().take(i + 1);
        let root = Seq::<Seq<char>>::empty();
        self.lemma_trie_paths(i);
        assert(more =~= done.push(label));
        let lhs = rename_map_through(self@, more);
        let rhs = rename_map_through(self@, done).union_prefer_right(
            walk_entries(paths, root, root, label),
        );
        assert forall|id: IdentifierView|
            #![trigger lhs.contains_key(id)]
            #![trigger rhs.contains_key(id)]
            lhs.contains_key(id) == rhs.contains_key(id) && (lhs.contains_key(id) ==> lhs[id]
                == rhs[id]) by {
            assert(id.mods.skip(0) =~= id.mods);
            assert(root.is_prefix_of(id.mods));
            assert(root + shortened(paths, id.mods) =~= shortened(paths, id.mods));
            if id.name == label {
                assert(in_walk(paths, root, label, id) == self@.contains(id)) by {
                    assert(id =~= IdentifierView { mods: id.mods, name: label });
                }
                assert(walk_short(paths, 0, root, id) =~= short_id(self@, id));
            }
            assert(more.contains(id.name) == (done.contains(id.name) || id.name == label)) by {
                if done.contains(id.name) {
                    let k = choose|k: int| 0 <= k < done.len() && done[k] == id.name;
                    assert(more[k] == id.name);
                }
                if id.name == label {
                    assert(more[i] == id.name);
                }
                if more.contains(id.name) {
                    let k = choose|k: int| 0 <= k < more.len() && more[k] == id.name;
                    if k < i {
                        assert(done[k] == id.name);
                    }
                }
            }
        }
        assert(lhs =~= rhs);
    }

    /// The rename map of the registered identifiers: each identifier whose
    /// short form differs from it, mapped to that short form.
    pub fn renames(&self) -> (map: IdentRenames)
        requires
            self.wf(),
        ensures
            map@ == rename_map(self@),
    {
        let mut map: IdentRenames = IdentRenames::new();
        let mut i: usize = 0;
        proof {
            assert(self.labels().take(0) =~= Seq::<Seq<char>>::empty());
            assert(map@ =~= rename_map_through(self@, self.labels().take(0)));
        }
        while i < self.tries.len()
            invariant
                self.wf(),
                i <= self.tries.len(),
                map@ == rename_map_through(self@, self.labels().take(i as int)),
            decreases self.tries.len() - i,
        {
            let mut state = FixupState::new(map, self.tries[i].0);
            proof {
                self.lemma_walk_renames(i as int);
                assert forall|id: IdentifierView|
                    in_walk(self.tries@[i as int].1@, state.full(), state.label(), id) implies
                    !state.renames().contains_key(id) by {
                    let done = self.labels().take(i as int);
                    if done.contains(id.name) {
                        let k = choose|k: int| 0 <= k < done.len() && done[k] == id.name;
                        assert(self.tries@[k].0@ != self.tries@[i as int].0@);
                    }
                }
            }
            self.tries[i].1.shorten(&mut state);
            map = state.into_renames();
            i = i + 1;
        }
        proof {
            assert(self.labels().take(i as int) =~= self.labels());
            assert forall|id: IdentifierView| self@.contains(id) implies self.labels().contains(
                id.name,
            ) by {
                let j = choose|j: int| self.holds_at(j, id);
                assert(self.labels()[j] == id.name);
            }
            assert(map@ =~= rename_map(self@));
        }
        map
    }
}

} // verus!
