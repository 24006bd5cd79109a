//! The order of texts by their characters, and the places of a list of
//! texts in ascending order. fog-pack keeps the entries and the named
//! types of a schema by name; they are handed over in this order.

use vstd::prelude::*;
use vstd::string::StringExecFns;

verus! {

broadcast use {vstd::std_specs::vec::group_vec_axioms, vstd::seq::group_seq_axioms};

/// Whether `a` comes before `b`: at the first place where they differ `a`
/// has the character with the smaller code, or `a` ends there and `b`
/// goes on. This is the order in which std compares strings.
pub open spec fn text_less(a: Seq<char>, b: Seq<char>) -> bool
    decreases a.len(),
{
    if b.len() == 0 {
        false
    } else if a.len() == 0 {
        true
    } else if a[0] != b[0] {
        (a[0] as u32) < (b[0] as u32)
    } else {
        text_less(a.skip(1), b.skip(1))
    }
}

/// No text comes before itself.
pub proof fn lemma_text_less_irreflexive(a: Seq<char>)
    ensures
        !text_less(a, a),
    decreases a.len(),
{
    if a.len() > 0 {
        lemma_text_less_irreflexive(a.skip(1));
    }
}

/// What comes before a text comes before all that it comes before.
pub proof fn lemma_text_less_transitive(a: Seq<char>, b: Seq<char>, c: Seq<char>)
    requires
        text_less(a, b),
        text_less(b, c),
    ensures
        text_less(a, c),
    decreases a.len(),
{
    if a.len() > 0 && b.len() > 0 && c.len() > 0 && a[0] == b[0] && b[0] == c[0] {
        lemma_text_less_transitive(a.skip(1), b.skip(1), c.skip(1));
    }
}

/// Whether `a` comes before `b`.
pub fn text_before(a: &str, b: &str) -> (less: bool)
    ensures
        less == text_less(a@, b@),
{
    let n: usize = a.unicode_len();
    let m: usize = b.unicode_len();
    let mut i: usize = 0;
    assert(a@.skip(0) =~= a@ && b@.skip(0) =~= b@);
    while i < n && i < m
        invariant
            n == a@.len(),
            m == b@.len(),
            i <= n,
            i <= m,
            text_less(a@, b@) == text_less(a@.skip(i as int), b@.skip(i as int)),
        decreases n - i,
    {
        let x: char = a.get_char(i);
        let y: char = b.get_char(i);
        proof {
            assert(a@.skip(i as int)[0] == x);
            assert(b@.skip(i as int)[0] == y);
            assert(a@.skip(i as int).skip(1) =~= a@.skip(i + 1));
            assert(b@.skip(i as int).skip(1) =~= b@.skip(i + 1));
        }
        if x != y {
            return (x as u32) < (y as u32);
        }
        i = i + 1;
    }
    i < m
}

/// Whether `order` holds the places of `keys` in ascending order: every
/// place once, and none before a place whose text comes before its own.
/// Where no two texts are the same there is one such order.
pub open spec fn ascending(keys: Seq<Seq<char>>, order: Seq<int>) -> bool {
    &&& order.len() == keys.len()
    &&& forall|a: int| 0 <= a < order.len() ==> 0 <= #[trigger] order[a] < keys.len()
    &&& forall|a: int, b: int|
        0 <= a < b < order.len() ==> #[trigger] order[a] != #[trigger] order[b] && !text_less(
            keys[order[b]],
            keys[order[a]],
        )
}

/// The places as numbers of a mathematical list.
pub open spec fn places(order: Seq<usize>) -> Seq<int> {
    order.map_values(|i: usize| i as int)
}

/// The texts of a list of strings.
pub open spec fn texts(keys: Seq<String>) -> Seq<Seq<char>> {
    keys.map_values(|s: String| s@)
}

/// The places of `keys` in ascending order. Of two places with the same
/// text the one that is first in `keys` comes first.
pub fn ascending_places(keys: &Vec<String>) -> (order: Vec<usize>)
    ensures
        ascending(texts(keys@), places(order@)),
{
    let mut order: Vec<usize> = Vec::new();
    let mut i: usize = 0;
    while i < keys.len()
        invariant
            i <= keys.len(),
            order@.len() == i,
            forall|a: int| 0 <= a < order@.len() ==> #[trigger] order@[a] < i,
            forall|a: int, b: int|
                0 <= a < b < order@.len() ==> #[trigger] order@[a] != #[trigger] order@[b]
                    && !text_less(keys@[order@[b] as int]@, keys@[order@[a] as int]@),
        decreases keys.len() - i,
    {
        let mut at: usize = 0;
        while at < order.len() && !text_before(keys[i].as_str(), keys[order[at]].as_str())
            invariant
                i < keys.len(),
                at <= order@.len(),
                order@.len() == i,
                forall|a: int| 0 <= a < order@.len() ==> #[trigger] order@[a] < i,
                forall|a: int|
                    0 <= a < at ==> !text_less(keys@[i as int]@, keys@[order@[a] as int]@),
            decreases order@.len() - at,
        {
            at = at + 1;
        }
        let ghost before = order@;
        order.insert(at, i);
        proof {
            assert(order@ =~= before.insert(at as int, i));
            assert forall|a: int, b: int| 0 <= a < b < order@.len() implies #[trigger] order@[a]
                != #[trigger] order@[b] && !text_less(
                keys@[order@[b] as int]@,
                keys@[order@[a] as int]@,
            ) by {
                let key = keys@[i as int]@;
                if b == at {
                    assert(order@[a] == before[a]);
                } else if a == at {
                    let later = keys@[before[b - 1] as int]@;
                    let next = keys@[before[at as int] as int]@;
                    assert(order@[b] == before[b - 1]);
                    assert(text_less(key, next));
                    if b - 1 > at {
                        assert(!text_less(later, next));
                    }
                    if text_less(later, key) {
                        lemma_text_less_transitive(later, key, next);
                        lemma_text_less_irreflexive(next);
                    }
                } else if b < at {
                    assert(order@[a] == before[a] && order@[b] == before[b]);
                } else if a < at {
                    assert(order@[a] == before[a] && order@[b] == before[b - 1]);
                } else {
                    assert(order@[a] == before[a - 1] && order@[b] == before[b - 1]);
                }
            }
        }
        i = i + 1;
    }
    proof {
        assert forall|a: int| 0 <= a < places(order@).len() implies 0 <= #[trigger] places(
            order@,
        )[a] < texts(keys@).len() by {
            assert(order@[a] < i);
        }
        assert forall|a: int, b: int| 0 <= a < b < places(order@).len() implies #[trigger] places(
            order@,
        )[a] != #[trigger] places(order@)[b] && !text_less(
            texts(keys@)[places(order@)[b]],
            texts(keys@)[places(order@)[a]],
        ) by {
            assert(order@[a] != order@[b]);
        }
    }
    order
}

} // verus!
