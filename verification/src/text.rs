//! Character-level helpers for paths and rendered names.

use vstd::prelude::*;
use vstd::string::StringExecFns;

verus! {

/// The separator between two segments of a path.
pub open spec fn path_sep() -> Seq<char> {
    seq![':', ':']
}

/// Whether `s` starts with the path separator.
pub open spec fn starts_with_sep(s: Seq<char>) -> bool {
    s.len() >= 2 && s[0] == ':' && s[1] == ':'
}

/// The segments of `s` between occurrences of the path separator, found from
/// left to right without overlap. There is always at least one segment: the
/// empty path has the single segment `""`.
pub open spec fn split_path(s: Seq<char>) -> Seq<Seq<char>>
    decreases s.len(),
{
    if s.len() == 0 {
        seq![Seq::<char>::empty()]
    } else if starts_with_sep(s) {
        seq![Seq::<char>::empty()] + split_path(s.skip(2))
    } else {
        let rest = split_path(s.skip(1));
        rest.update(0, seq![s[0]] + rest[0])
    }
}

/// The segments of `head + tail`, given that `head` holds no separator that
/// ends before `tail` begins.
pub open spec fn split_after(head: Seq<char>, tail: Seq<char>) -> Seq<Seq<char>> {
    let rest = split_path(tail);
    rest.update(0, head + rest[0])
}

pub(crate) proof fn lemma_split_nonempty(s: Seq<char>)
    ensures
        split_path(s).len() >= 1,
    decreases s.len(),
{
    if s.len() == 0 {
    } else if starts_with_sep(s) {
        lemma_split_nonempty(s.skip(2));
    } else {
        lemma_split_nonempty(s.skip(1));
    }
}

proof fn lemma_split_after_start(s: Seq<char>)
    ensures
        split_after(Seq::<char>::empty(), s) == split_path(s),
{
    lemma_split_nonempty(s);
    let rest = split_path(s);
    assert(Seq::<char>::empty() + rest[0] =~= rest[0]);
    assert(rest.update(0, rest[0]) =~= rest);
}

proof fn lemma_split_after_end(head: Seq<char>)
    ensures
        split_after(head, Seq::<char>::empty()) == seq![head],
{
    assert(head + Seq::<char>::empty() =~= head);
    assert(seq![Seq::<char>::empty()].update(0, head) =~= seq![head]);
}

proof fn lemma_split_after_sep(head: Seq<char>, tail: Seq<char>)
    requires
        starts_with_sep(tail),
    ensures
        split_after(head, tail) == seq![head] + split_path(tail.skip(2)),
{
    let rest = split_path(tail);
    assert(head + Seq::<char>::empty() =~= head);
    assert(rest.update(0, head + rest[0]) =~= seq![head] + split_path(tail.skip(2)));
}

proof fn lemma_split_after_step(head: Seq<char>, tail: Seq<char>)
    requires
        tail.len() > 0,
        !starts_with_sep(tail),
    ensures
        split_after(head, tail) == split_after(head.push(tail[0]), tail.skip(1)),
{
    lemma_split_nonempty(tail.skip(1));
    let inner = split_path(tail.skip(1));
    let rest = split_path(tail);
    assert(head + (seq![tail[0]] + inner[0]) =~= head.push(tail[0]) + inner[0]);
    assert(rest.update(0, head + rest[0]) =~= inner.update(0, head.push(tail[0]) + inner[0]));
}

/// The characters of each string of `v`.
pub open spec fn views(v: Seq<&'static str>) -> Seq<Seq<char>> {
    v.map_values(|s: &'static str| s@)
}

/// Whether two string slices hold the same characters.
pub fn str_eq(a: &str, b: &str) -> (same: bool)
    ensures
        same == (a@ == b@),
{
    let n: usize = a.unicode_len();
    if n != b.unicode_len() {
        return false;
    }
    let mut i: usize = 0;
    while i < n
        invariant
            n == a@.len(),
            n == b@.len(),
            i <= n,
            forall|j: int| 0 <= j < i ==> a@[j] == b@[j],
        decreases n - i,
    {
        if a.get_char(i) != b.get_char(i) {
            return false;
        }
        i = i + 1;
    }
    assert(a@ =~= b@);
    true
}

/// The character of a decimal digit.
pub open spec fn digit_char(d: nat) -> char {
    if d == 0 {
        '0'
    } else if d == 1 {
        '1'
    } else if d == 2 {
        '2'
    } else if d == 3 {
        '3'
    } else if d == 4 {
        '4'
    } else if d == 5 {
        '5'
    } else if d == 6 {
        '6'
    } else if d == 7 {
        '7'
    } else if d == 8 {
        '8'
    } else {
        '9'
    }
}

/// The decimal digits of `n`, without leading zeros; `0` is `"0"`.
pub open spec fn decimal(n: nat) -> Seq<char>
    decreases n,
{
    if n < 10 {
        seq![digit_char(n)]
    } else {
        decimal(n / 10).push(digit_char(n % 10))
    }
}

/// The text of one decimal digit.
fn digit_str(d: usize) -> (text: &'static str)
    requires
        d < 10,
    ensures
        text@ == seq![digit_char(d as nat)],
{
    proof {
        reveal_strlit("0");
        reveal_strlit("1");
        reveal_strlit("2");
        reveal_strlit("3");
        reveal_strlit("4");
        reveal_strlit("5");
        reveal_strlit("6");
        reveal_strlit("7");
        reveal_strlit("8");
        reveal_strlit("9");
    }
    let text: &'static str = if d == 0 {
        "0"
    } else if d == 1 {
        "1"
    } else if d == 2 {
        "2"
    } else if d == 3 {
        "3"
    } else if d == 4 {
        "4"
    } else if d == 5 {
        "5"
    } else if d == 6 {
        "6"
    } else if d == 7 {
        "7"
    } else if d == 8 {
        "8"
    } else {
        "9"
    };
    assert(text@ =~= seq![digit_char(d as nat)]);
    text
}

/// The decimal text of `n`.
pub fn decimal_text(n: usize) -> (text: String)
    ensures
        text@ == decimal(n as nat),
    decreases n,
{
    if n < 10 {
        String::from_str(digit_str(n))
    } else {
        let mut text: String = decimal_text(n / 10);
        text.append(digit_str(n % 10));
        text
    }
}

/// Whether two lists of segments hold the same strings in the same order.
pub fn segments_eq(a: &Vec<&'static str>, b: &Vec<&'static str>) -> (same: bool)
    ensures
        same == (views(a@) == views(b@)),
{
    if a.len() != b.len() {
        assert(views(a@).len() != views(b@).len());
        return false;
    }
    let mut i: usize = 0;
    while i < a.len()
        invariant
            i <= a.len(),
            a.len() == b.len(),
            forall|j: int| 0 <= j < i ==> a@[j]@ == b@[j]@,
        decreases a.len() - i,
    {
        if !str_eq(a[i], b[i]) {
            assert(views(a@)[i as int] != views(b@)[i as int]);
            return false;
        }
        i = i + 1;
    }
    assert(views(a@) =~= views(b@));
    true
}

/// A copy of a list of segments.
pub fn copy_segments(v: &Vec<&'static str>) -> (copy: Vec<&'static str>)
    ensures
        copy@ == v@,
{
    let mut copy: Vec<&'static str> = Vec::new();
    let mut i: usize = 0;
    while i < v.len()
        invariant
            i <= v.len(),
            copy@ == v@.take(i as int),
        decreases v.len() - i,
    {
        copy.push(v[i]);
        i = i + 1;
        assert(copy@ =~= v@.take(i as int));
    }
    assert(copy@ =~= v@);
    copy
}

/// Splits a path at each `::`, as `split_path` describes.
pub fn split_segments(path: &'static str) -> (segments: Vec<&'static str>)
    ensures
        views(segments@) == split_path(path@),
{
    let n: usize = path.unicode_len();
    let mut segments: Vec<&'static str> = Vec::new();
    let mut start: usize = 0;
    let mut i: usize = 0;
    proof {
        lemma_split_after_start(path@);
        assert(path@.subrange(0, 0) =~= Seq::<char>::empty());
        assert(path@.skip(0) =~= path@);
        assert(views(segments@) =~= Seq::<Seq<char>>::empty());
    }
    while i < n
        invariant
            n == path@.len(),
            start <= i <= n,
            split_path(path@) == views(segments@) + split_after(
                path@.subrange(start as int, i as int),
                path@.skip(i as int),
            ),
        decreases n - i,
    {
        let ghost head = path@.subrange(start as int, i as int);
        let ghost tail = path@.skip(i as int);
        let at_sep: bool = i + 1 < n && path.get_char(i) == ':' && path.get_char(i + 1) == ':';
        if at_sep {
            let segment: &'static str = path.substring_char(start, i);
            proof {
                lemma_split_after_sep(head, tail);
                assert(tail.skip(2) =~= path@.skip(i + 2));
                lemma_split_after_start(path@.skip(i + 2));
                assert(path@.subrange(i + 2, i + 2) =~= Seq::<char>::empty());
                assert(views(segments@.push(segment)) =~= views(segments@) + seq![head]);
            }
            segments.push(segment);
            i = i + 2;
            start = i;
        } else {
            proof {
                lemma_split_after_step(head, tail);
                assert(tail.skip(1) =~= path@.skip(i + 1));
                assert(head.push(tail[0]) =~= path@.subrange(start as int, i + 1));
            }
            i = i + 1;
        }
    }
    let last: &'static str = path.substring_char(start, n);
    proof {
        assert(path@.skip(n as int) =~= Seq::<char>::empty());
        lemma_split_after_end(path@.subrange(start as int, n as int));
        assert(views(segments@.push(last)) =~= views(segments@) + seq![last@]);
    }
    segments.push(last);
    segments
}

} // verus!
