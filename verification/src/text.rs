//! Trimming of surrounding whitespace.
use vstd::prelude::*;

verus! {

/// Whether `c` has the Unicode `White_Space` property, which is what
/// `char::is_whitespace` reports and what `str::trim` goes by.
pub uninterp spec fn is_whitespace(c: char) -> bool;

/// `s` without its leading whitespace.
pub open spec fn trim_start(s: Seq<char>) -> Seq<char>
    decreases s.len(),
{
    if s.len() > 0 && is_whitespace(s.first()) {
        trim_start(s.drop_first())
    } else {
        s
    }
}

/// `s` without its trailing whitespace.
pub open spec fn trim_end(s: Seq<char>) -> Seq<char>
    decreases s.len(),
{
    if s.len() > 0 && is_whitespace(s.last()) {
        trim_end(s.drop_last())
    } else {
        s
    }
}

/// `s` without the whitespace that surrounds it.
pub open spec fn trimmed(s: Seq<char>) -> Seq<char> {
    trim_end(trim_start(s))
}

/// Whether every character of `s` is whitespace.
pub open spec fn all_whitespace(s: Seq<char>) -> bool {
    forall|k: int| 0 <= k < s.len() ==> is_whitespace(#[trigger] s[k])
}

/// Calls `str::trim`. Trusted: the result is `s` with its leading and its
/// trailing whitespace removed, so that what is left, unless it is empty,
/// neither starts nor ends with whitespace.
#[verifier::external_body]
pub(crate) fn trim<'a>(s: &'a str) -> (r: &'a str)
    ensures
        r@ == trimmed(s@),
        r@.len() > 0 ==> !is_whitespace(r@.first()) && !is_whitespace(r@.last()),
{
    s.trim()
}

/// After `i` leading whitespace characters that are followed by the end or by
/// something else, `trim_start` leaves what comes after them.
proof fn trim_start_cuts(s: Seq<char>, i: int)
    requires
        0 <= i <= s.len(),
        forall|k: int| 0 <= k < i ==> is_whitespace(#[trigger] s[k]),
        i < s.len() ==> !is_whitespace(s[i]),
    ensures
        trim_start(s) == s.subrange(i, s.len() as int),
    decreases i,
{
    if i == 0 {
        assert(s.subrange(0, s.len() as int) =~= s);
    } else {
        let t = s.drop_first();
        assert forall|k: int| 0 <= k < i - 1 implies is_whitespace(#[trigger] t[k]) by {
            assert(t[k] == s[k + 1]);
        }
        trim_start_cuts(t, i - 1);
        assert(t.subrange(i - 1, t.len() as int) =~= s.subrange(i, s.len() as int));
    }
}

/// Before trailing whitespace that starts at `j` and is preceded by the start
/// or by something else, `trim_end` leaves what comes before it.
proof fn trim_end_cuts(s: Seq<char>, j: int)
    requires
        0 <= j <= s.len(),
        forall|k: int| j <= k < s.len() ==> is_whitespace(#[trigger] s[k]),
        0 < j ==> !is_whitespace(s[j - 1]),
    ensures
        trim_end(s) == s.subrange(0, j),
    decreases s.len() - j,
{
    if j == s.len() {
        assert(s.subrange(0, j) =~= s);
    } else {
        let t = s.drop_last();
        assert forall|k: int| j <= k < t.len() implies is_whitespace(#[trigger] t[k]) by {
            assert(t[k] == s[k]);
        }
        trim_end_cuts(t, j);
        assert(t.subrange(0, j) =~= s.subrange(0, j));
    }
}

/// Nothing is left of a text that is whitespace throughout; the empty text
/// is one such.
pub proof fn trimmed_of_whitespace_is_empty(s: Seq<char>)
    requires
        all_whitespace(s),
    ensures
        trimmed(s) == Seq::<char>::empty(),
{
    trim_start_cuts(s, s.len() as int);
    let t = s.subrange(s.len() as int, s.len() as int);
    assert(t =~= Seq::<char>::empty());
    assert(trim_end(t) == t);
}

/// Trimming takes away surrounding whitespace and nothing else: the result
/// is `s` between two cuts, what lies outside the cuts is whitespace, and a
/// result that is not empty neither starts nor ends with whitespace.
pub proof fn trimmed_removes_only_whitespace(s: Seq<char>) -> (cuts: (int, int))
    ensures
        0 <= cuts.0 <= cuts.1 <= s.len(),
        trimmed(s) == s.subrange(cuts.0, cuts.1),
        all_whitespace(s.subrange(0, cuts.0)),
        all_whitespace(s.subrange(cuts.1, s.len() as int)),
        cuts.0 < cuts.1 ==> !is_whitespace(trimmed(s).first()) && !is_whitespace(
            trimmed(s).last(),
        ),
{
    let i = leading_cut(s);
    let t = s.subrange(i, s.len() as int);
    trim_start_cuts(s, i);
    let j = trailing_cut(t);
    trim_end_cuts(t, j);
    assert(t.subrange(0, j) =~= s.subrange(i, i + j));
    assert forall|k: int| 0 <= k < s.len() - (i + j) implies is_whitespace(
        #[trigger] s.subrange(i + j, s.len() as int)[k],
    ) by {
        assert(s.subrange(i + j, s.len() as int)[k] == t[k + j]);
    }
    if 0 < j {
        assert(s.subrange(i, i + j).first() == t[0]);
        assert(s.subrange(i, i + j).last() == t[j - 1]);
    }
    (i, i + j)
}

/// Trimming twice is trimming once.
pub proof fn trimmed_is_idempotent(s: Seq<char>)
    ensures
        trimmed(trimmed(s)) == trimmed(s),
{
    let (i, j) = trimmed_removes_only_whitespace(s);
    let t = trimmed(s);
    if i < j {
        assert(trim_start(t) == t);
        assert(trim_end(t) == t);
    } else {
        assert(t.len() == 0);
        assert(trim_start(t) == t);
        assert(trim_end(t) == t);
    }
}

/// The first place in `s` that holds no whitespace, or its length.
proof fn leading_cut(s: Seq<char>) -> (i: int)
    ensures
        0 <= i <= s.len(),
        forall|k: int| 0 <= k < i ==> is_whitespace(#[trigger] s[k]),
        i < s.len() ==> !is_whitespace(s[i]),
    decreases s.len(),
{
    if s.len() > 0 && is_whitespace(s.first()) {
        let t = s.drop_first();
        let i = leading_cut(t);
        assert forall|k: int| 0 <= k < i + 1 implies is_whitespace(#[trigger] s[k]) by {
            if k > 0 {
                assert(s[k] == t[k - 1]);
            }
        }
        if i + 1 < s.len() {
            assert(s[i + 1] == t[i]);
        }
        i + 1
    } else {
        0
    }
}

/// The place in `s` from which on all is whitespace, as far back as it goes.
proof fn trailing_cut(s: Seq<char>) -> (j: int)
    ensures
        0 <= j <= s.len(),
        forall|k: int| j <= k < s.len() ==> is_whitespace(#[trigger] s[k]),
        0 < j ==> !is_whitespace(s[j - 1]),
    decreases s.len(),
{
    if s.len() > 0 && is_whitespace(s.last()) {
        let t = s.drop_last();
        let j = trailing_cut(t);
        assert forall|k: int| j <= k < s.len() implies is_whitespace(#[trigger] s[k]) by {
            if k < t.len() {
                assert(s[k] == t[k]);
            }
        }
        if 0 < j {
            assert(s[j - 1] == t[j - 1]);
        }
        j
    } else {
        s.len() as int
    }
}

} // verus!
