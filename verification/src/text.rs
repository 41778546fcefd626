use vstd::prelude::*;
use vstd::string::StrSliceExecFns;

verus! {

/// `needle` occurs in `hay` as a contiguous run starting at index `i`.
pub open spec fn contains_at(hay: Seq<char>, needle: Seq<char>, i: int) -> bool {
    &&& 0 <= i
    &&& i + needle.len() <= hay.len()
    &&& hay.subrange(i, i + needle.len() as int) == needle
}

/// `needle` occurs somewhere in `hay` as a contiguous run.
pub open spec fn contains_seq(hay: Seq<char>, needle: Seq<char>) -> bool {
    exists|i: int| contains_at(hay, needle, i)
}

/// A sequence contains itself.
pub proof fn lemma_contains_self(s: Seq<char>)
    ensures
        contains_seq(s, s),
{
    assert(s.subrange(0, s.len() as int) =~= s);
    assert(contains_at(s, s, 0));
}

/// A run of `b` is still a run of `a + b`, shifted by `a.len()`.
pub proof fn lemma_contains_at_concat(a: Seq<char>, b: Seq<char>, needle: Seq<char>, i: int)
    requires
        contains_at(b, needle, i),
    ensures
        contains_at(a + b, needle, a.len() + i),
{
    assert((a + b).subrange(a.len() + i, a.len() + i + needle.len() as int) =~= b.subrange(
        i,
        i + needle.len() as int,
    ));
}

/// What `b` contains, `a + b` contains.
pub proof fn lemma_contains_concat_r(a: Seq<char>, b: Seq<char>, needle: Seq<char>)
    requires
        contains_seq(b, needle),
    ensures
        contains_seq(a + b, needle),
{
    let i = choose|i: int| contains_at(b, needle, i);
    lemma_contains_at_concat(a, b, needle, i);
}

/// What `a` contains, `a + b` contains.
pub proof fn lemma_contains_concat_l(a: Seq<char>, b: Seq<char>, needle: Seq<char>)
    requires
        contains_seq(a, needle),
    ensures
        contains_seq(a + b, needle),
{
    let i = choose|i: int| contains_at(a, needle, i);
    assert((a + b).subrange(i, i + needle.len() as int) =~= a.subrange(
        i,
        i + needle.len() as int,
    ));
    assert(contains_at(a + b, needle, i));
}

/// Containment composes through an intermediate sequence.
pub proof fn lemma_contains_trans(hay: Seq<char>, mid: Seq<char>, needle: Seq<char>)
    requires
        contains_seq(hay, mid),
        contains_seq(mid, needle),
    ensures
        contains_seq(hay, needle),
{
    let i = choose|i: int| contains_at(hay, mid, i);
    let j = choose|j: int| contains_at(mid, needle, j);
    assert forall|k: int| 0 <= k < needle.len() implies hay[i + j + k] == needle[k] by {
        assert(mid[j + k] == needle[k]);
        assert(hay.subrange(i, i + mid.len() as int)[j + k] == mid[j + k]);
    }
    assert(hay.subrange(i + j, i + j + needle.len() as int) =~= needle);
    assert(contains_at(hay, needle, i + j));
}

/// What stands in the middle of a concatenation is contained in the whole.
pub proof fn lemma_contains_in_middle(a: Seq<char>, b: Seq<char>, c: Seq<char>, needle: Seq<char>)
    requires
        contains_seq(b, needle),
    ensures
        contains_seq(a + b + c, needle),
{
    lemma_contains_concat_r(a, b, needle);
    lemma_contains_concat_l(a + b, c, needle);
}

/// Collect the characters of a string slice into a vector.
pub fn str_to_chars(s: &str) -> (v: Vec<char>)
    ensures
        v@ == s@,
{
    let n = s.unicode_len();
    let mut v: Vec<char> = Vec::new();
    let mut i: usize = 0;
    while i < n
        invariant
            n == s@.len(),
            i <= n,
            v@ == s@.subrange(0, i as int),
        decreases n - i,
    {
        let c = s.get_char(i);
        v.push(c);
        proof {
            assert(v@ =~= s@.subrange(0, i + 1 as int));
        }
        i = i + 1;
    }
    proof {
        assert(v@ =~= s@);
    }
    v
}

/// Relies on `String::push`: appends the given character to the end of
/// this `String`.
#[verifier::external_body]
pub(crate) fn push_char(s: &mut String, c: char)
    ensures
        final(s)@ == old(s)@.push(c),
{
    s.push(c);
}

} // verus!
