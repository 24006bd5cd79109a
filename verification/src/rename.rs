//! The rename map: which identifier each registered identifier is shortened
//! to.

use vstd::prelude::*;
use crate::name::{Identifier, IdentifierView};

verus! {

/// The map that a list of `(from, to)` pairs stands for. Where a `from`
/// occurs more than once, its first pair counts.
pub open spec fn pairs_map(pairs: Seq<(IdentifierView, IdentifierView)>) -> Map<
    IdentifierView,
    IdentifierView,
>
    decreases pairs.len(),
{
    if pairs.len() == 0 {
        Map::empty()
    } else {
        let init = pairs_map(pairs.drop_last());
        if init.contains_key(pairs.last().0) {
            init
        } else {
            init.insert(pairs.last().0, pairs.last().1)
        }
    }
}

/// A key that no pair before `upto` holds, and that the pair at `at` holds,
/// is mapped by that pair.
proof fn lemma_first_pair_counts(
    pairs: Seq<(IdentifierView, IdentifierView)>,
    at: int,
    upto: int,
)
    requires
        0 <= at < upto <= pairs.len(),
        !pairs_map(pairs.take(at)).contains_key(pairs[at].0),
    ensures
        pairs_map(pairs.take(upto)).contains_key(pairs[at].0),
        pairs_map(pairs.take(upto))[pairs[at].0] == pairs[at].1,
    decreases upto - at,
{
    let now = pairs.take(upto);
    assert(now.drop_last() =~= pairs.take(upto - 1));
    if upto - 1 > at {
        lemma_first_pair_counts(pairs, at, upto - 1);
    }
}

/// A key that no pair holds is not in the map.
proof fn lemma_absent_key(pairs: Seq<(IdentifierView, IdentifierView)>, key: IdentifierView)
    requires
        forall|i: int| 0 <= i < pairs.len() ==> pairs[i].0 != key,
    ensures
        !pairs_map(pairs).contains_key(key),
    decreases pairs.len(),
{
    if pairs.len() > 0 {
        lemma_absent_key(pairs.drop_last(), key);
    }
}

/// A map from identifiers to the identifiers that replace them.
#[derive(Debug)]
pub struct IdentRenames {
    pairs: Vec<(Identifier, Identifier)>,
}

impl IdentRenames {
    spec fn pair_views(&self) -> Seq<(IdentifierView, IdentifierView)> {
        self.pairs@.map_values(|p: (Identifier, Identifier)| (p.0@, p.1@))
    }
}

impl View for IdentRenames {
    type V = Map<IdentifierView, IdentifierView>;

    closed spec fn view(&self) -> Map<IdentifierView, IdentifierView> {
        pairs_map(self.pair_views())
    }
}

impl IdentRenames {
    /// The map that renames nothing.
    pub fn new() -> (renames: IdentRenames)
        ensures
            renames@ == Map::<IdentifierView, IdentifierView>::empty(),
    {
        IdentRenames { pairs: Vec::new() }
    }

    /// What `id` is renamed to, if it is renamed.
    pub fn get(&self, id: &Identifier) -> (found: Option<&Identifier>)
        ensures
            found is Some <==> self@.contains_key(id@),
            found matches Some(to) ==> to@ == self@[id@],
    {
        let mut i: usize = 0;
        while i < self.pairs.len()
            invariant
                i <= self.pairs.len(),
                forall|j: int| 0 <= j < i ==> self.pair_views()[j].0 != id@,
            decreases self.pairs.len() - i,
        {
            if self.pairs[i].0.same_as(id) {
                proof {
                    let views = self.pair_views();
                    lemma_absent_key(views.take(i as int), id@);
                    lemma_first_pair_counts(views, i as int, views.len() as int);
                    assert(views.take(views.len() as int) =~= views);
                }
                return Some(&self.pairs[i].1);
            }
            i = i + 1;
        }
        proof {
            lemma_absent_key(self.pair_views(), id@);
        }
        None
    }

    /// Adds a renaming for an identifier that has none yet.
    pub fn insert(&mut self, from: Identifier, to: Identifier)
        requires
            !old(self)@.contains_key(from@),
        ensures
            final(self)@ == old(self)@.insert(from@, to@),
    {
        let ghost before = self.pair_views();
        self.pairs.push((from, to));
        proof {
            let after = self.pair_views();
            assert(after.drop_last() =~= before);
            assert(after.last() == (from@, to@));
        }
    }
}

} // verus!
