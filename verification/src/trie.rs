//! The identifier trie: for one leaf label, the namespace paths of the
//! identifiers registered under it, keyed segment by segment from the
//! outermost inwards.

use vstd::prelude::*;
use crate::name::{Identifier, IdentifierView};
use crate::rename::IdentRenames;
use crate::shorten::{
    below, in_walk, keeps, lemma_walk_below, parts_at, shortened, walk_entries,
    walk_entries_through,
};
use crate::text::{copy_segments, segments_eq, str_eq, views};

verus! {

broadcast use {vstd::std_specs::vec::group_vec_axioms, vstd::seq::group_seq_axioms};

/// A node of the trie. It is marked where a registered path ends exactly
/// there, and has one child for each segment that some registered path goes
/// on with. Its value is the set of the paths registered at or below it,
/// each read from this node downwards.
#[derive(Debug)]
pub struct IdentTracker {
    exists: bool,
    children: Vec<(&'static str, IdentTracker)>,
}

impl IdentTracker {
    /// Whether `path`, read from this node downwards, ends at a marked node.
    pub closed spec fn holds(&self, path: Seq<Seq<char>>) -> bool
        decreases path.len(),
    {
        if path.len() == 0 {
            self.exists
        } else {
            exists|i: int|
                0 <= i < self.children@.len() && (#[trigger] self.children@[i]).0@ == path[0]
                    && self.children@[i].1.holds(path.drop_first())
        }
    }

    /// Whether `path` goes through the child at `i` and ends at a marked
    /// node below it.
    pub closed spec fn holds_through(&self, i: int, path: Seq<Seq<char>>) -> bool {
        &&& path.len() > 0
        &&& 0 <= i < self.children@.len()
        &&& self.children@[i].0@ == path[0]
        &&& self.children@[i].1.holds(path.drop_first())
    }

    /// A path is registered below a node exactly if it goes through one of
    /// the children.
    proof fn lemma_holds(&self, path: Seq<Seq<char>>)
        ensures
            self@.contains(path) == self.holds(path),
            path.len() == 0 ==> self.holds(path) == self.exists,
            path.len() > 0 ==> self.holds(path) == exists|i: int| self.holds_through(i, path),
    {
        if path.len() > 0 {
            if self.holds(path) {
                let i = choose|i: int|
                    0 <= i < self.children@.len() && (#[trigger] self.children@[i]).0@ == path[0]
                        && self.children@[i].1.holds(path.drop_first());
                assert(self.holds_through(i, path));
            }
            if exists|i: int| self.holds_through(i, path) {
                let i = choose|i: int| self.holds_through(i, path);
                assert(self.children@[i].0@ == path[0]);
            }
        }
    }

    /// The paths registered at or below this node.
    pub closed spec fn paths(&self) -> Set<Seq<Seq<char>>> {
        Set::new(|path: Seq<Seq<char>>| self.holds(path))
    }

    /// Whether this node is marked or has a child.
    pub closed spec fn occupied(&self) -> bool {
        self.exists || self.children@.len() > 0
    }

    /// No two children of a node have the same segment, and below every
    /// child some path is registered.
    pub closed spec fn wf(&self) -> bool
        decreases self,
    {
        &&& forall|i: int, j: int|
            0 <= i < j < self.children@.len() ==> self.children@[i].0@ != self.children@[j].0@
        &&& forall|i: int|
            0 <= i < self.children@.len() ==> (#[trigger] self.children@[i]).1.wf()
                && self.children@[i].1.occupied()
    }
}

impl View for IdentTracker {
    type V = Set<Seq<Seq<char>>>;

    closed spec fn view(&self) -> Set<Seq<Seq<char>>> {
        self.paths()
    }
}

impl Clone for IdentTracker {
    fn clone(&self) -> (copy: Self)
        ensures
            copy@ == self@,
            copy.occupied() == self.occupied(),
            self.wf() ==> copy.wf(),
        decreases self,
    {
        let mut children: Vec<(&'static str, IdentTracker)> = Vec::new();
        let mut i: usize = 0;
        while i < self.children.len()
            invariant
                i <= self.children.len(),
                children@.len() == i,
                forall|j: int|
                    0 <= j < i ==> {
                        &&& (#[trigger] children@[j]).0 == self.children@[j].0
                        &&& children@[j].1@ == self.children@[j].1@
                        &&& children@[j].1.occupied() == self.children@[j].1.occupied()
                        &&& self.children@[j].1.wf() ==> children@[j].1.wf()
                    },
            decreases self.children.len() - i,
        {
            let child: IdentTracker = self.children[i].1.clone();
            children.push((self.children[i].0, child));
            i = i + 1;
        }
        let copy = IdentTracker { exists: self.exists, children };
        proof {
            assert forall|p: Seq<Seq<char>>| copy.holds(p) == self.holds(p) by {
                copy.lemma_holds(p);
                self.lemma_holds(p);
                if p.len() > 0 {
                    assert forall|j: int| copy.holds_through(j, p) == self.holds_through(j, p) by {
                        if 0 <= j < self.children@.len() {
                            copy.children@[j].1.lemma_holds(p.drop_first());
                            self.children@[j].1.lemma_holds(p.drop_first());
                        }
                    }
                }
            }
            assert(copy@ =~= self@);
        }
        copy
    }
}

impl Default for IdentTracker {
    /// The node under which nothing is registered.
    fn default() -> (node: Self)
        ensures
            node.wf(),
            node@ == Set::<Seq<Seq<char>>>::empty(),
    {
        let node = IdentTracker { exists: false, children: Vec::new() };
        assert(node@ =~= Set::<Seq<Seq<char>>>::empty()) by {
            assert forall|path: Seq<Seq<char>>| !node.holds(path) by {
                node.lemma_holds(path);
            }
        }
        node
    }
}

impl IdentTracker {
    /// Registers the path `mods` under this node.
    pub fn modify(&mut self, mods: &Vec<&'static str>)
        requires
            old(self).wf(),
        ensures
            final(self).wf(),
            final(self)@ == old(self)@.insert(views(mods@)),
    {
        self.modify_from(mods, 0);
        assert(views(mods@).skip(0) =~= views(mods@));
    }

    /// Registers what is left of `mods` from position `from` on.
    fn modify_from(&mut self, mods: &Vec<&'static str>, from: usize)
        requires
            old(self).wf(),
            from <= mods.len(),
        ensures
            final(self).wf(),
            final(self).occupied(),
            final(self)@ == old(self)@.insert(views(mods@).skip(from as int)),
        decreases mods.len() - from,
    {
        let ghost path = views(mods@).skip(from as int);
        let ghost before = *self;
        if from == mods.len() {
            self.exists = true;
            proof {
                assert forall|p: Seq<Seq<char>>| self.holds(p) == (before.holds(p) || p == path) by {
                    self.lemma_holds(p);
                    before.lemma_holds(p);
                    if p.len() > 0 {
                        assert(forall|i: int|
                            self.holds_through(i, p) == before.holds_through(i, p));
                    } else {
                        assert(p =~= path);
                    }
                }
                assert(self@ =~= before@.insert(path));
            }
            return ;
        }
        let seg: &'static str = mods[from];
        let mut at: usize = 0;
        while at < self.children.len() && !str_eq(self.children[at].0, seg)
            invariant
                at <= self.children.len(),
                *self == before,
                forall|j: int| 0 <= j < at ==> self.children@[j].0@ != seg@,
            decreases self.children.len() - at,
        {
            at = at + 1;
        }
        if at == self.children.len() {
            self.children.push((seg, IdentTracker::default()));
        }
        let ghost grown = *self;
        proof {
            assert(grown.wf_but(at as int));
            assert forall|p: Seq<Seq<char>>| #[trigger] grown.holds(p) == before.holds(p) by {
                grown.lemma_holds(p);
                before.lemma_holds(p);
                if p.len() > 0 {
                    assert forall|i: int| grown.holds_through(i, p) == before.holds_through(
                        i,
                        p,
                    ) by {
                        if i == before.children@.len() && i < grown.children@.len() {
                            grown.children@[i].1.lemma_holds(p.drop_first());
                        }
                    }
                }
            }
        }
        self.children[at].1.modify_from(mods, from + 1);
        proof {
            let rest = views(mods@).skip(from + 1);
            assert(path.drop_first() =~= rest);
            assert(path[0] == seg@);
            let i = at as int;
            assert(self.children@.len() == grown.children@.len());
            assert(forall|j: int|
                0 <= j < self.children@.len() && j != i ==> self.children@[j]
                    == grown.children@[j]);
            assert(self.children@[i].0 == grown.children@[i].0);
            assert(self.children@[i].1@ == grown.children@[i].1@.insert(rest));
            assert(self.exists == grown.exists);
            assert(path.len() > 0);
            assert forall|p: Seq<Seq<char>>| #[trigger]
                self.holds(p) == (grown.holds(p) || p == path) by {
                self.lemma_holds(p);
                grown.lemma_holds(p);
                if p.len() > 0 {
                    assert forall|j: int|
                        #![trigger self.holds_through(j, p)]
                        #![trigger grown.holds_through(j, p)]
                        self.holds_through(j, p) == (grown.holds_through(j, p) || (j == i && p
                            == path)) by {
                        if j == i && p[0] == seg@ {
                            self.children@[i].1.lemma_holds(p.drop_first());
                            grown.children@[i].1.lemma_holds(p.drop_first());
                            if p.drop_first() == rest {
                                assert(p =~= seq![p[0]] + p.drop_first());
                                assert(path =~= seq![path[0]] + path.drop_first());
                            }
                        }
                    }
                    if p == path {
                        self.children@[i].1.lemma_holds(rest);
                        assert(self.holds_through(i, p));
                    }

                }
            }
            assert(self@ =~= before@.insert(path));
        }
    }

    /// Well-formed but for the child at `at`, which may be empty yet.
    spec fn wf_but(&self, at: int) -> bool {
        &&& 0 <= at < self.children@.len()
        &&& forall|i: int, j: int|
            0 <= i < j < self.children@.len() ==> self.children@[i].0@ != self.children@[j].0@
        &&& forall|i: int|
            0 <= i < self.children@.len() ==> (#[trigger] self.children@[i]).1.wf() && (i != at
                ==> self.children@[i].1.occupied())
    }
}

/// The state of one walk over the trie of one leaf label: the renamings
/// found so far, the path from the root to the node at hand, and the short
/// form of that path.
pub struct FixupState {
    map: IdentRenames,
    new_mods: Vec<&'static str>,
    full_mods: Vec<&'static str>,
    name: &'static str,
}

impl FixupState {
    /// The renamings found so far.
    pub closed spec fn renames(&self) -> Map<IdentifierView, IdentifierView> {
        self.map@
    }

    /// The path from the root to the node at hand.
    pub closed spec fn full(&self) -> Seq<Seq<char>> {
        views(self.full_mods@)
    }

    /// The short form of the path to the node at hand.
    pub closed spec fn short(&self) -> Seq<Seq<char>> {
        views(self.new_mods@)
    }

    /// The leaf label of the identifiers of this walk.
    pub closed spec fn label(&self) -> Seq<char> {
        self.name@
    }

    /// The identifier that ends at the node at hand.
    pub open spec fn here(&self) -> IdentifierView {
        IdentifierView { mods: self.full(), name: self.label() }
    }

    /// The state at the root of the trie of the leaf `name`, with the
    /// renamings `map` found before.
    pub fn new(map: IdentRenames, name: &'static str) -> (state: FixupState)
        ensures
            state.renames() == map@,
            state.full() == Seq::<Seq<char>>::empty(),
            state.short() == Seq::<Seq<char>>::empty(),
            state.label() == name@,
    {
        let state = FixupState { map, new_mods: Vec::new(), full_mods: Vec::new(), name };
        assert(state.full() =~= Seq::<Seq<char>>::empty());
        assert(state.short() =~= Seq::<Seq<char>>::empty());
        state
    }

    /// The renamings found.
    pub fn into_renames(self) -> (map: IdentRenames)
        ensures
            map@ == self.renames(),
    {
        self.map
    }

    /// Records that the identifier that ends at the node at hand is renamed
    /// to its short form, unless the two are the same.
    pub fn shorten(&mut self)
        requires
            !old(self).renames().contains_key(old(self).here()),
        ensures
            final(self).full() == old(self).full(),
            final(self).short() == old(self).short(),
            final(self).label() == old(self).label(),
            final(self).renames() == if old(self).short() == old(self).full() {
                old(self).renames()
            } else {
                old(self).renames().insert(
                    old(self).here(),
                    IdentifierView { mods: old(self).short(), name: old(self).label() },
                )
            },
    {
        if segments_eq(&self.new_mods, &self.full_mods) {
            return ;
        }
        let from = Identifier::from_parts(copy_segments(&self.full_mods), self.name);
        let to = Identifier::from_parts(copy_segments(&self.new_mods), self.name);
        self.map.insert(from, to);
    }

    fn descend(&mut self, seg: &'static str, keep: bool)
        ensures
            final(self).full() == old(self).full().push(seg@),
            final(self).short() == if keep {
                old(self).short().push(seg@)
            } else {
                old(self).short()
            },
            final(self).label() == old(self).label(),
            final(self).renames() == old(self).renames(),
    {
        self.full_mods.push(seg);
        if keep {
            self.new_mods.push(seg);
        }
        assert(self.full() =~= old(self).full().push(seg@));
        assert(keep ==> self.short() =~= old(self).short().push(seg@));
    }

    fn ascend(&mut self, keep: bool)
        requires
            old(self).full().len() > 0,
            keep ==> old(self).short().len() > 0,
        ensures
            final(self).full() == old(self).full().drop_last(),
            final(self).short() == if keep {
                old(self).short().drop_last()
            } else {
                old(self).short()
            },
            final(self).label() == old(self).label(),
            final(self).renames() == old(self).renames(),
    {
        self.full_mods.pop();
        if keep {
            self.new_mods.pop();
        }
        assert(self.full() =~= old(self).full().drop_last());
        assert(keep ==> self.short() =~= old(self).short().drop_last());
    }
}

impl IdentTracker {
    /// The segments of the children, in the order in which they are held.
    spec fn child_keys(&self) -> Seq<Seq<char>> {
        Seq::new(self.children@.len(), |j: int| self.children@[j].0@)
    }

    /// Below a child are the registered paths that start with its segment.
    proof fn lemma_child_paths(&self, i: int)
        requires
            self.wf(),
            0 <= i < self.children@.len(),
        ensures
            self.children@[i].1@ == below(self@, self.children@[i].0@),
    {
        let child = self.children@[i].1;
        let seg = self.children@[i].0@;
        assert forall|rest: Seq<Seq<char>>| child.holds(rest) == self.holds(seq![seg] + rest) by {
            let path = seq![seg] + rest;
            assert(path.drop_first() =~= rest);
            self.lemma_holds(path);
            if child.holds(rest) {
                assert(self.holds_through(i, path));
            }
            if self.holds(path) {
                let j = choose|j: int| self.holds_through(j, path);
                assert(j == i) by {
                    if j < i {
                        assert(self.children@[j].0@ != self.children@[i].0@);
                    } else if i < j {
                        assert(self.children@[i].0@ != self.children@[j].0@);
                    }
                }
            }
        }
        assert(child@ =~= below(self@, seg));
    }

    /// A path is registered at or below every node that is marked or has a
    /// child.
    proof fn lemma_occupied_path(&self) -> (path: Seq<Seq<char>>)
        requires
            self.wf(),
            self.occupied(),
        ensures
            self.holds(path),
        decreases self,
    {
        if self.exists {
            Seq::empty()
        } else {
            let rest = self.children@[0].1.lemma_occupied_path();
            let path = seq![self.children@[0].0@] + rest;
            assert(path.drop_first() =~= rest);
            self.lemma_holds(path);
            assert(self.holds_through(0, path));
            path
        }
    }

    /// A registered path that is not empty starts with the segment of a
    /// child.
    proof fn lemma_first_is_child(&self, path: Seq<Seq<char>>)
        requires
            self@.contains(path),
            path.len() > 0,
        ensures
            self.child_keys().contains(path[0]),
    {
        self.lemma_holds(path);
        let j = choose|j: int| self.holds_through(j, path);
        assert(self.child_keys()[j] == path[0]);
    }

    /// The segment after the root is kept exactly where the root is marked
    /// or has more than one child.
    proof fn lemma_root_keeps(&self)
        requires
            self.wf(),
        ensures
            keeps(self@, Seq::empty()) == (self.exists || self.children@.len() >= 2),
    {
        let root = Seq::<Seq<char>>::empty();
        self.lemma_holds(root);
        if self.children@.len() >= 2 {
            let a1 = self.children@[0].1.lemma_occupied_path();
            let b1 = self.children@[1].1.lemma_occupied_path();
            let a = seq![self.children@[0].0@] + a1;
            let b = seq![self.children@[1].0@] + b1;
            assert(a.drop_first() =~= a1);
            assert(b.drop_first() =~= b1);
            self.lemma_holds(a);
            self.lemma_holds(b);
            assert(self.holds_through(0, a));
            assert(self.holds_through(1, b));
            assert(a.take(0) =~= root);
            assert(b.take(0) =~= root);
            assert(parts_at(self@, root, a, b));
        }
        if exists|a: Seq<Seq<char>>, b: Seq<Seq<char>>| parts_at(self@, root, a, b) {
            let (a, b) = choose|a: Seq<Seq<char>>, b: Seq<Seq<char>>| parts_at(self@, root, a, b);
            self.lemma_holds(a);
            self.lemma_holds(b);
            let i = choose|i: int| self.holds_through(i, a);
            let j = choose|j: int| self.holds_through(j, b);
            assert(i != j);
        }
    }

    /// The renamings of the node itself: of the identifier that ends here,
    /// if the node is marked and the short form differs.
    proof fn lemma_walk_here(
        &self,
        full: Seq<Seq<char>>,
        short: Seq<Seq<char>>,
        label: Seq<char>,
    )
        ensures
            walk_entries_through(self@, full, short, label, Seq::empty()) == if self.exists
                && short != full {
                Map::<IdentifierView, IdentifierView>::empty().insert(
                    IdentifierView { mods: full, name: label },
                    IdentifierView { mods: short, name: label },
                )
            } else {
                Map::<IdentifierView, IdentifierView>::empty()
            },
    {
        let here = IdentifierView { mods: full, name: label };
        let root = Seq::<Seq<char>>::empty();
        let got = walk_entries_through(self@, full, short, label, Seq::empty());
        self.lemma_holds(root);
        assert(shortened(self@, root) =~= root);
        assert(full.skip(full.len() as int) =~= root);
        assert(short + root =~= short);
        assert(full.take(full.len() as int) =~= full);
        assert forall|id: IdentifierView| got.contains_key(id) implies id == here by {
            assert(id.mods.take(full.len() as int) =~= id.mods);
            assert(id =~= here);
        }
        if self.exists && short != full {
            assert(got.contains_key(here));
            assert(got =~= Map::<IdentifierView, IdentifierView>::empty().insert(
                here,
                IdentifierView { mods: short, name: label },
            ));
        } else {
            assert(got =~= Map::<IdentifierView, IdentifierView>::empty());
        }
    }

    /// Going through one more child adds the renamings of the walk below
    /// that child.
    proof fn lemma_walk_step(
        &self,
        full: Seq<Seq<char>>,
        short: Seq<Seq<char>>,
        label: Seq<char>,
        i: int,
    )
        requires
            self.wf(),
            0 <= i < self.children@.len(),
        ensures
            walk_entries_through(self@, full, short, label, self.child_keys().take(i + 1))
                == walk_entries_through(
                self@,
                full,
                short,
                label,
                self.child_keys().take(i),
            ).union_prefer_right(
                walk_entries(
                    self.children@[i].1@,
                    full.push(self.children@[i].0@),
                    if keeps(self@, Seq::empty()) {
                        short.push(self.children@[i].0@)
                    } else {
                        short
                    },
                    label,
                ),
            ),
    {
        let seg = self.children@[i].0@;
        let done = self.child_keys().take(i);
        let more = self.child_keys().take(i + 1);
        let deeper = if keeps(self@, Seq::empty()) {
            short.push(seg)
        } else {
            short
        };
        self.lemma_child_paths(i);
        assert(more =~= done.push(seg));
        let lhs = walk_entries_through(self@, full, short, label, more);
        let rhs = walk_entries_through(self@, full, short, label, done).union_prefer_right(
            walk_entries(self.children@[i].1@, full.push(seg), deeper, label),
        );
        assert forall|id: IdentifierView|
            #![trigger lhs.contains_key(id)]
            #![trigger rhs.contains_key(id)]
            lhs.contains_key(id) == rhs.contains_key(id) && (lhs.contains_key(id) ==> lhs[id]
                == rhs[id]) by {
            lemma_walk_below(self@, full, short, label, seg, id);
            if id.mods.len() > full.len() {
                let next = id.mods[full.len() as int];
                assert(more.contains(next) == (done.contains(next) || next == seg)) by {
                    if done.contains(next) {
                        let k = choose|k: int| 0 <= k < done.len() && done[k] == next;
                        assert(more[k] == next);
                    }
                    if next == seg {
                        assert(more[i] == next);
                    }
                    if more.contains(next) {
                        let k = choose|k: int| 0 <= k < more.len() && more[k] == next;
                        if k < i {
                            assert(done[k] == next);
                        }
                    }
                }
            }
        }
        assert(lhs =~= rhs);
    }

    /// Once the walk has gone through every child, it has found all
    /// renamings.
    proof fn lemma_walk_done(&self, full: Seq<Seq<char>>, short: Seq<Seq<char>>, label: Seq<char>)
        ensures
            walk_entries_through(self@, full, short, label, self.child_keys()) == walk_entries(
                self@,
                full,
                short,
                label,
            ),
    {
        let lhs = walk_entries_through(self@, full, short, label, self.child_keys());
        let rhs = walk_entries(self@, full, short, label);
        assert forall|id: IdentifierView|
            #![trigger lhs.contains_key(id)]
            #![trigger rhs.contains_key(id)]
            lhs.contains_key(id) == rhs.contains_key(id) by {
            if rhs.contains_key(id) && id.mods.len() != full.len() {
                let rest = id.mods.skip(full.len() as int);
                self.lemma_first_is_child(rest);
                assert(rest[0] == id.mods[full.len() as int]);
            }
        }
        assert(lhs =~= rhs);
    }

    /// Walks the trie below this node and records, for every registered
    /// path that ends at or below it, the renaming of its identifier to the
    /// short form, unless the two are the same.
    pub fn shorten(&self, state: &mut FixupState)
        requires
            self.wf(),
            forall|id: IdentifierView|
                in_walk(self@, old(state).full(), old(state).label(), id) ==> !old(
                    state,
                ).renames().contains_key(id),
        ensures
            final(state).full() == old(state).full(),
            final(state).short() == old(state).short(),
            final(state).label() == old(state).label(),
            final(state).renames() == old(state).renames().union_prefer_right(
                walk_entries(self@, old(state).full(), old(state).short(), old(state).label()),
            ),
        decreases self,
    {
        let ghost full = state.full();
        let ghost short = state.short();
        let ghost label = state.label();
        let ghost found = state.renames();
        let ghost root = Seq::<Seq<char>>::empty();
        proof {
            self.lemma_holds(root);
            self.lemma_walk_here(full, short, label);
            self.lemma_root_keeps();
            assert(full.skip(full.len() as int) =~= root);
            assert(full.is_prefix_of(full));
        }
        if self.exists {
            assert(in_walk(self@, full, label, state.here()));
            state.shorten();
        }
        assert(state.renames() =~= found.union_prefer_right(
            walk_entries_through(self@, full, short, label, root),
        ));
        let keep: bool = self.exists || self.children.len() != 1;
        let mut i: usize = 0;
        assert(self.child_keys().take(0) =~= root);
        while i < self.children.len()
            invariant
                self.wf(),
                i <= self.children.len(),
                keep == (self.exists || self.children.len() != 1),
                self.children.len() > 0 ==> keep == keeps(self@, Seq::empty()),
                state.full() == full,
                state.short() == short,
                state.label() == label,
                state.renames() == found.union_prefer_right(
                    walk_entries_through(self@, full, short, label, self.child_keys().take(i as int)),
                ),
                forall|id: IdentifierView|
                    in_walk(self@, full, label, id) ==> !found.contains_key(id),
            decreases self.children.len() - i,
        {
            let seg: &'static str = self.children[i].0;
            let ghost before = state.renames();
            state.descend(seg, keep);
            proof {
                self.lemma_walk_step(full, short, label, i as int);
                self.lemma_child_paths(i as int);
                assert forall|id: IdentifierView|
                    in_walk(self.children@[i as int].1@, full.push(seg@), label, id)
                    implies !before.contains_key(id) by {
                    lemma_walk_below(self@, full, short, label, seg@, id);
                    let next = id.mods[full.len() as int];
                    let done = self.child_keys().take(i as int);
                    if done.contains(next) {
                        let k = choose|k: int| 0 <= k < done.len() && done[k] == next;
                        assert(self.children@[k].0@ != self.children@[i as int].0@);
                    }
                }
            }
            self.children[i].1.shorten(state);
            state.ascend(keep);
            proof {
                assert(full.push(seg@).drop_last() =~= full);
                assert(short.push(seg@).drop_last() =~= short);
                assert(state.renames() =~= found.union_prefer_right(
                    walk_entries_through(
                        self@,
                        full,
                        short,
                        label,
                        self.child_keys().take(i + 1),
                    ),
                ));
            }
            i = i + 1;
        }
        proof {
            assert(self.child_keys().take(i as int) =~= self.child_keys());
            self.lemma_walk_done(full, short, label);
        }
    }
}

} // verus!
