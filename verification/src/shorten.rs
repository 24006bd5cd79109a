//! What shortening means, stated over the set of registered identifiers.
//!
//! Identifiers that share a leaf label are told apart by their namespace
//! segments. A segment is kept in the short form exactly where it is needed
//! for that: where the segments before it are themselves a registered path,
//! or where two registered paths part right after them.

use vstd::prelude::*;
use crate::name::IdentifierView;

verus! {

/// Whether `a` and `b` are registered paths that both start with `prefix`
/// and go on with different segments.
pub open spec fn parts_at(
    paths: Set<Seq<Seq<char>>>,
    prefix: Seq<Seq<char>>,
    a: Seq<Seq<char>>,
    b: Seq<Seq<char>>,
) -> bool {
    &&& paths.contains(a)
    &&& paths.contains(b)
    &&& prefix.len() < a.len()
    &&& prefix.len() < b.len()
    &&& a.take(prefix.len() as int) == prefix
    &&& b.take(prefix.len() as int) == prefix
    &&& a[prefix.len() as int] != b[prefix.len() as int]
}

/// Whether two registered paths part right after `prefix`.
pub open spec fn diverges_at(paths: Set<Seq<Seq<char>>>, prefix: Seq<Seq<char>>) -> bool {
    exists|a: Seq<Seq<char>>, b: Seq<Seq<char>>| parts_at(paths, prefix, a, b)
}

/// Whether the segment that follows `prefix` stays in the short form.
pub open spec fn keeps(paths: Set<Seq<Seq<char>>>, prefix: Seq<Seq<char>>) -> bool {
    paths.contains(prefix) || diverges_at(paths, prefix)
}

/// The short form of `path` among the registered `paths`: the segments of
/// `path` that are kept, in order.
pub open spec fn shortened(paths: Set<Seq<Seq<char>>>, path: Seq<Seq<char>>) -> Seq<Seq<char>>
    decreases path.len(),
{
    if path.len() == 0 {
        Seq::empty()
    } else {
        let init = shortened(paths, path.drop_last());
        if keeps(paths, path.drop_last()) {
            init.push(path.last())
        } else {
            init
        }
    }
}

/// The registered paths that start with `seg`, without that first segment.
pub open spec fn below(paths: Set<Seq<Seq<char>>>, seg: Seq<char>) -> Set<Seq<Seq<char>>> {
    Set::new(|rest: Seq<Seq<char>>| paths.contains(seq![seg] + rest))
}

/// The segment paths of the identifiers of `ids` that have the leaf `label`.
pub open spec fn paths_of(ids: Set<IdentifierView>, label: Seq<char>) -> Set<Seq<Seq<char>>> {
    Set::new(|mods: Seq<Seq<char>>| ids.contains(IdentifierView { mods, name: label }))
}

/// The short form of `id` among the registered identifiers `ids`.
pub open spec fn short_id(ids: Set<IdentifierView>, id: IdentifierView) -> IdentifierView {
    IdentifierView { mods: shortened(paths_of(ids, id.name), id.mods), name: id.name }
}

/// The rename map of a set of registered identifiers: each identifier whose
/// short form differs from it, mapped to that short form.
pub open spec fn rename_map(ids: Set<IdentifierView>) -> Map<IdentifierView, IdentifierView> {
    Map::new(
        |id: IdentifierView| ids.contains(id) && short_id(ids, id) != id,
        |id: IdentifierView| short_id(ids, id),
    )
}

/// Whether `id` has the leaf `label` and a path that starts with `full` and
/// goes on with one of `paths`.
pub open spec fn in_walk(
    paths: Set<Seq<Seq<char>>>,
    full: Seq<Seq<char>>,
    label: Seq<char>,
    id: IdentifierView,
) -> bool {
    &&& id.name == label
    &&& full.is_prefix_of(id.mods)
    &&& paths.contains(id.mods.skip(full.len() as int))
}

/// The short form of `id`, where `short` is the short form of the first
/// `full_len` segments and `paths` are the registered paths after them.
pub open spec fn walk_short(
    paths: Set<Seq<Seq<char>>>,
    full_len: nat,
    short: Seq<Seq<char>>,
    id: IdentifierView,
) -> IdentifierView {
    IdentifierView { mods: short + shortened(paths, id.mods.skip(full_len as int)), name: id.name }
}

/// The renamings of the identifiers with the leaf `label` whose paths start
/// with `full` and go on with one of `paths`, where `short` is the short
/// form of `full`.
pub open spec fn walk_entries(
    paths: Set<Seq<Seq<char>>>,
    full: Seq<Seq<char>>,
    short: Seq<Seq<char>>,
    label: Seq<char>,
) -> Map<IdentifierView, IdentifierView> {
    Map::new(
        |id: IdentifierView|
            in_walk(paths, full, label, id) && walk_short(paths, full.len(), short, id) != id,
        |id: IdentifierView| walk_short(paths, full.len(), short, id),
    )
}

/// Those of `walk_entries` whose path ends with `full` or goes on with one
/// of the segments `next`.
pub open spec fn walk_entries_through(
    paths: Set<Seq<Seq<char>>>,
    full: Seq<Seq<char>>,
    short: Seq<Seq<char>>,
    label: Seq<char>,
    next: Seq<Seq<char>>,
) -> Map<IdentifierView, IdentifierView> {
    Map::new(
        |id: IdentifierView|
            in_walk(paths, full, label, id) && walk_short(paths, full.len(), short, id) != id && (
            id.mods.len() == full.len() || next.contains(id.mods[full.len() as int])),
        |id: IdentifierView| walk_short(paths, full.len(), short, id),
    )
}

/// The identifiers that a walk below the segment `seg` meets are those of
/// the whole walk that go on with `seg`, and their short forms agree.
pub(crate) proof fn lemma_walk_below(
    paths: Set<Seq<Seq<char>>>,
    full: Seq<Seq<char>>,
    short: Seq<Seq<char>>,
    label: Seq<char>,
    seg: Seq<char>,
    id: IdentifierView,
)
    ensures
        in_walk(below(paths, seg), full.push(seg), label, id) == (in_walk(paths, full, label, id)
            && id.mods.len() > full.len() && id.mods[full.len() as int] == seg),
        in_walk(below(paths, seg), full.push(seg), label, id) ==> walk_short(
            below(paths, seg),
            full.len() + 1,
            if keeps(paths, Seq::empty()) {
                short.push(seg)
            } else {
                short
            },
            id,
        ) == walk_short(paths, full.len(), short, id),
{
    let n = full.len() as int;
    let longer = full.push(seg);
    if id.mods.len() > n && full.is_prefix_of(id.mods) && id.mods[n] == seg {
        let rest = id.mods.skip(n);
        let tail = id.mods.skip(n + 1);
        assert(seq![seg] + tail =~= rest);
        assert(id.mods.take(n + 1) =~= longer) by {
            assert(id.mods.take(n) == full);
            assert(id.mods.take(n + 1) =~= id.mods.take(n).push(id.mods[n]));
        }
        lemma_shortened_below(paths, seg, tail);
        if keeps(paths, Seq::empty()) {
            assert(short.push(seg) + shortened(below(paths, seg), tail) =~= short + (seq![seg]
                + shortened(below(paths, seg), tail)));
        } else {
            assert(Seq::<Seq<char>>::empty() + shortened(below(paths, seg), tail)
                =~= shortened(below(paths, seg), tail));
        }
    }
    if longer.is_prefix_of(id.mods) {
        assert(id.mods.take(n + 1)[n] == seg);
        assert(id.mods.take(n) =~= full) by {
            assert forall|i: int| 0 <= i < n implies id.mods[i] == full[i] by {
                assert(id.mods.take(n + 1)[i] == longer[i]);
            }
        }
    }
}

/// The short form of the first `k` segments begins the short form of the
/// whole path.
pub(crate) proof fn lemma_shortened_prefix(paths: Set<Seq<Seq<char>>>, path: Seq<Seq<char>>, k: int)
    requires
        0 <= k <= path.len(),
    ensures
        shortened(paths, path.take(k)).is_prefix_of(shortened(paths, path)),
    decreases path.len(),
{
    if k == path.len() {
        assert(path.take(k) =~= path);
    } else {
        let init = path.drop_last();
        assert(init.take(k) =~= path.take(k));
        lemma_shortened_prefix(paths, init, k);
    }
}

/// One more segment after a kept position makes the short form longer by
/// that segment.
proof fn lemma_shortened_step(paths: Set<Seq<Seq<char>>>, path: Seq<Seq<char>>, k: int)
    requires
        0 <= k < path.len(),
    ensures
        shortened(paths, path.take(k + 1)) == if keeps(paths, path.take(k)) {
            shortened(paths, path.take(k)).push(path[k])
        } else {
            shortened(paths, path.take(k))
        },
{
    let next = path.take(k + 1);
    assert(next.drop_last() =~= path.take(k));
    assert(next.last() == path[k]);
}

proof fn lemma_paths_differ_from(
    paths: Set<Seq<Seq<char>>>,
    p: Seq<Seq<char>>,
    q: Seq<Seq<char>>,
    k: int,
)
    requires
        paths.contains(p),
        paths.contains(q),
        p != q,
        0 <= k <= p.len(),
        k <= q.len(),
        p.take(k) == q.take(k),
    ensures
        shortened(paths, p) != shortened(paths, q),
    decreases p.len() - k,
{
    let common = shortened(paths, p.take(k));
    if k == p.len() || k == q.len() {
        // One path begins the other: the longer one keeps the next segment.
        let (short, long) = if k == p.len() {
            (p, q)
        } else {
            (q, p)
        };
        assert(short.take(k) =~= short);
        assert(long.len() > k) by {
            if long.len() == k {
                assert(long.take(k) =~= long);
            }
        }
        assert(keeps(paths, long.take(k)));
        lemma_shortened_step(paths, long, k);
        lemma_shortened_prefix(paths, long, k + 1);
        assert(shortened(paths, long).len() > shortened(paths, short).len());
    } else if p[k] != q[k] {
        assert(parts_at(paths, p.take(k), p, q));
        lemma_shortened_step(paths, p, k);
        lemma_shortened_step(paths, q, k);
        lemma_shortened_prefix(paths, p, k + 1);
        lemma_shortened_prefix(paths, q, k + 1);
        let at = common.len() as int;
        assert(shortened(paths, p.take(k + 1))[at] == p[k]);
        assert(shortened(paths, q.take(k + 1))[at] == q[k]);
        assert(shortened(paths, p)[at] == p[k]);
        assert(shortened(paths, q)[at] == q[k]);
    } else {
        assert(p.take(k + 1) =~= q.take(k + 1)) by {
            assert(p.take(k + 1) =~= p.take(k).push(p[k]));
            assert(q.take(k + 1) =~= q.take(k).push(q[k]));
        }
        lemma_paths_differ_from(paths, p, q, k + 1);
    }
}

/// Two different registered paths have different short forms.
pub proof fn lemma_shortened_injective(
    paths: Set<Seq<Seq<char>>>,
    p: Seq<Seq<char>>,
    q: Seq<Seq<char>>,
)
    requires
        paths.contains(p),
        paths.contains(q),
        p != q,
    ensures
        shortened(paths, p) != shortened(paths, q),
{
    assert(p.take(0) =~= q.take(0));
    lemma_paths_differ_from(paths, p, q, 0);
}

/// Shortening never lets two identifiers collide: any two different
/// registered identifiers have different short forms.
pub proof fn lemma_short_ids_differ(ids: Set<IdentifierView>, a: IdentifierView, b: IdentifierView)
    requires
        ids.contains(a),
        ids.contains(b),
        a != b,
    ensures
        short_id(ids, a) != short_id(ids, b),
{
    if a.name == b.name {
        assert(a.mods != b.mods) by {
            if a.mods == b.mods {
                assert(a =~= b);
            }
        }
        lemma_shortened_injective(paths_of(ids, a.name), a.mods, b.mods);
    }
}

/// The short form of an identifier keeps the label and only drops segments:
/// it is never longer than the identifier.
pub proof fn lemma_shortened_len(paths: Set<Seq<Seq<char>>>, path: Seq<Seq<char>>)
    ensures
        shortened(paths, path).len() <= path.len(),
    decreases path.len(),
{
    if path.len() > 0 {
        lemma_shortened_len(paths, path.drop_last());
    }
}

/// Whether a position is kept does not change when the first segment is cut
/// off both the registered paths and the prefix.
pub(crate) proof fn lemma_keeps_below(
    paths: Set<Seq<Seq<char>>>,
    seg: Seq<char>,
    prefix: Seq<Seq<char>>,
)
    ensures
        keeps(paths, seq![seg] + prefix) == keeps(below(paths, seg), prefix),
{
    let sub = below(paths, seg);
    let long = seq![seg] + prefix;
    if diverges_at(paths, long) {
        let (a, b) = choose|a: Seq<Seq<char>>, b: Seq<Seq<char>>| parts_at(paths, long, a, b);
        let a1 = a.drop_first();
        let b1 = b.drop_first();
        assert(a.take(long.len() as int)[0] == seg);
        assert(b.take(long.len() as int)[0] == seg);
        assert(seq![seg] + a1 =~= a);
        assert(seq![seg] + b1 =~= b);
        assert(a1.take(prefix.len() as int) =~= prefix) by {
            assert forall|i: int| 0 <= i < prefix.len() implies a1[i] == prefix[i] by {
                assert(a.take(long.len() as int)[i + 1] == long[i + 1]);
            }
        }
        assert(b1.take(prefix.len() as int) =~= prefix) by {
            assert forall|i: int| 0 <= i < prefix.len() implies b1[i] == prefix[i] by {
                assert(b.take(long.len() as int)[i + 1] == long[i + 1]);
            }
        }
        assert(parts_at(sub, prefix, a1, b1));
    }
    if diverges_at(sub, prefix) {
        let (a1, b1) = choose|a: Seq<Seq<char>>, b: Seq<Seq<char>>| parts_at(sub, prefix, a, b);
        let a = seq![seg] + a1;
        let b = seq![seg] + b1;
        assert(a.take(long.len() as int) =~= long) by {
            assert forall|i: int| 1 <= i < long.len() implies a[i] == long[i] by {
                assert(a1.take(prefix.len() as int)[i - 1] == prefix[i - 1]);
            }
        }
        assert(b.take(long.len() as int) =~= long) by {
            assert forall|i: int| 1 <= i < long.len() implies b[i] == long[i] by {
                assert(b1.take(prefix.len() as int)[i - 1] == prefix[i - 1]);
            }
        }
        assert(parts_at(paths, long, a, b));
    }
}

/// The short form of a path splits at its first segment: that segment if the
/// root position is kept, then the short form of the rest among the paths
/// below that segment.
pub(crate) proof fn lemma_shortened_below(
    paths: Set<Seq<Seq<char>>>,
    seg: Seq<char>,
    rest: Seq<Seq<char>>,
)
    ensures
        shortened(paths, seq![seg] + rest) == (if keeps(paths, Seq::empty()) {
            seq![seg]
        } else {
            Seq::empty()
        }) + shortened(below(paths, seg), rest),
    decreases rest.len(),
{
    let path = seq![seg] + rest;
    let head: Seq<Seq<char>> = if keeps(paths, Seq::empty()) {
        seq![seg]
    } else {
        Seq::empty()
    };
    if rest.len() == 0 {
        assert(path.drop_last() =~= Seq::<Seq<char>>::empty());
        assert(path.last() == seg);
        assert(shortened(paths, Seq::<Seq<char>>::empty()) =~= Seq::<Seq<char>>::empty());
        assert(shortened(below(paths, seg), rest) =~= Seq::<Seq<char>>::empty());
        assert(shortened(paths, path) =~= head + shortened(below(paths, seg), rest));
    } else {
        let init = rest.drop_last();
        assert(path.drop_last() =~= seq![seg] + init);
        assert(path.last() == rest.last());
        lemma_shortened_below(paths, seg, init);
        lemma_keeps_below(paths, seg, init);
        let sub = below(paths, seg);
        if keeps(sub, init) {
            assert(shortened(paths, path) == shortened(paths, seq![seg] + init).push(rest.last()));
            assert(shortened(sub, rest) == shortened(sub, init).push(rest.last()));
        } else {
            assert(shortened(paths, path) == shortened(paths, seq![seg] + init));
            assert(shortened(sub, rest) == shortened(sub, init));
        }
        assert(shortened(paths, path) =~= head + shortened(sub, rest));
    }
}

} // verus!
