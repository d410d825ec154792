//! Small searches in text, stated over sequences of characters.

use vstd::prelude::*;

verus! {

/// The index of the first `c` in `s`, or the length of `s` where it holds none.
pub open spec fn first_index_of(s: Seq<char>, c: char) -> int
    decreases s.len(),
{
    if s.len() == 0 {
        0
    } else if s[0] == c {
        0
    } else {
        1 + first_index_of(s.drop_first(), c)
    }
}

/// The part of `s` behind its last `c`; all of `s` where it holds none.
pub open spec fn final_segment(s: Seq<char>, c: char) -> Seq<char>
    decreases s.len(),
{
    if s.len() == 0 || s.last() == c {
        Seq::empty()
    } else {
        final_segment(s.drop_last(), c).push(s.last())
    }
}

/// `first_index_of` is the least index that holds `c`, and the length where
/// there is none.
pub proof fn lemma_first_index_of(s: Seq<char>, c: char)
    ensures
        0 <= first_index_of(s, c) <= s.len(),
        forall|j: int| 0 <= j < first_index_of(s, c) ==> s[j] != c,
        first_index_of(s, c) < s.len() ==> s[first_index_of(s, c)] == c,
    decreases s.len(),
{
    if s.len() > 0 && s[0] != c {
        let rest = s.drop_first();
        lemma_first_index_of(rest, c);
        assert forall|j: int| 0 <= j < first_index_of(s, c) implies s[j] != c by {
            if j > 0 {
                assert(s[j] == rest[j - 1]);
            }
        }
        assert(first_index_of(s, c) < s.len() ==> s[first_index_of(s, c)] == rest[first_index_of(rest, c)]);
    }
}

/// An index that holds `c` with none before it is `first_index_of`.
pub proof fn lemma_first_index_of_is(s: Seq<char>, c: char, k: int)
    requires
        0 <= k <= s.len(),
        forall|j: int| 0 <= j < k ==> s[j] != c,
        k < s.len() ==> s[k] == c,
    ensures
        first_index_of(s, c) == k,
{
    lemma_first_index_of(s, c);
    let f = first_index_of(s, c);
    if f < k {
        assert(s[f] == c);
    } else if k < f {
        assert(s[k] == c);
    }
}

/// `final_segment` holds no `c`, ends `s`, and what stands before it is
/// empty or ends in `c`.
pub proof fn lemma_final_segment(s: Seq<char>, c: char)
    ensures
        final_segment(s, c).len() <= s.len(),
        final_segment(s, c) == s.subrange(s.len() - final_segment(s, c).len(), s.len() as int),
        forall|j: int| 0 <= j < final_segment(s, c).len() ==> final_segment(s, c)[j] != c,
        final_segment(s, c).len() < s.len() ==> s[s.len() - final_segment(s, c).len() - 1] == c,
    decreases s.len(),
{
    if s.len() > 0 && s.last() != c {
        let front = s.drop_last();
        lemma_final_segment(front, c);
        let seg = final_segment(front, c);
        assert(final_segment(s, c) =~= s.subrange(s.len() - seg.len() - 1, s.len() as int));
    } else {
        assert(final_segment(s, c) =~= s.subrange(s.len() as int, s.len() as int));
    }
}

/// A suffix of `s` without `c`, behind a `c` or the start, is `final_segment`.
pub proof fn lemma_final_segment_is(s: Seq<char>, c: char, k: int)
    requires
        0 <= k <= s.len(),
        forall|j: int| k <= j < s.len() ==> s[j] != c,
        k > 0 ==> s[k - 1] == c,
    ensures
        final_segment(s, c) == s.subrange(k, s.len() as int),
    decreases s.len(),
{
    if s.len() == 0 || s.last() == c {
        assert(k == s.len());
        assert(s.subrange(k, s.len() as int) =~= Seq::<char>::empty());
    } else {
        assert(k < s.len()) by {
            if k == s.len() {
                assert(s[k - 1] == c);
            }
        }
        let front = s.drop_last();
        lemma_final_segment_is(front, c, k);
        assert(front.subrange(k, front.len() as int).push(s.last()) =~= s.subrange(k, s.len() as int));
    }
}

/// The texts that a list of strings holds, in order.
pub open spec fn texts(v: Seq<String>) -> Seq<Seq<char>> {
    Seq::new(v.len(), |i: int| v[i]@)
}

/// The characters of `s`, in order.
pub fn chars_of(s: &str) -> (v: Vec<char>)
    ensures
        v@ == s@,
{
    let mut v: Vec<char> = Vec::new();
    for c in it: s.chars()
        invariant
            v@ == it.seq().take(it.index()),
            it.seq() == s@,
    {
        v.push(c);
    }
    v
}

/// Where the first `c` stands in `s`; the number of characters of `s` where
/// it holds none.
pub fn find_first(s: &str, c: char) -> (k: usize)
    ensures
        k == first_index_of(s@, c),
{
    let v = chars_of(s);
    let mut i: usize = 0;
    while i < v.len()
        invariant
            i <= v.len(),
            v@ == s@,
            forall|j: int| 0 <= j < i ==> v@[j] != c,
        decreases v.len() - i,
    {
        if v[i] == c {
            proof {
                lemma_first_index_of_is(s@, c, i as int);
            }
            return i;
        }
        i += 1;
    }
    proof {
        lemma_first_index_of_is(s@, c, i as int);
    }
    i
}

/// The part of `s` behind its last `c`, as a string of its own.
pub fn last_segment(s: &str, c: char) -> (seg: String)
    ensures
        seg@ == final_segment(s@, c),
{
    let v = chars_of(s);
    let mut start: usize = 0;
    let mut i: usize = 0;
    while i < v.len()
        invariant
            start <= i <= v.len(),
            v@ == s@,
            forall|j: int| start <= j < i ==> v@[j] != c,
            start > 0 ==> v@[start - 1] == c,
        decreases v.len() - i,
    {
        if v[i] == c {
            start = i + 1;
        }
        i += 1;
    }
    proof {
        lemma_final_segment_is(s@, c, start as int);
    }
    s.substring_char(start, v.len()).to_owned()
}

} // verus!
