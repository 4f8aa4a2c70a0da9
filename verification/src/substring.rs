//! Case-sensitive substring containment on character sequences: the
//! matcher behind the optional name filter of the list operation.

use vstd::prelude::*;

verus! {

/// `sub` occurs in `hay` starting at character position `i`.
pub open spec fn substr_at(hay: Seq<char>, sub: Seq<char>, i: int) -> bool {
    0 <= i && i + sub.len() <= hay.len() && hay.subrange(i, i + sub.len() as int) == sub
}

/// `sub` occurs somewhere in `hay` (the empty sequence occurs in every `hay`).
pub open spec fn contains_substr(hay: Seq<char>, sub: Seq<char>) -> bool {
    exists|i: int| substr_at(hay, sub, i)
}

/// The empty sequence is a substring of every sequence.
pub proof fn lemma_empty_substr(hay: Seq<char>)
    ensures
        contains_substr(hay, Seq::<char>::empty()),
{
    assert(hay.subrange(0, 0) =~= Seq::<char>::empty());
    assert(substr_at(hay, Seq::<char>::empty(), 0));
}

/// Decides whether `sub` occurs in `hay`, character for character and
/// case sensitive.
pub fn str_contains_substr(hay: &str, sub: &str) -> (r: bool)
    ensures
        r == contains_substr(hay@, sub@),
{
    let hay_len = hay.unicode_len();
    let sub_len = sub.unicode_len();
    if sub_len > hay_len {
        assert(!contains_substr(hay@, sub@));
        return false;
    }
    let mut start: usize = 0;
    loop
        invariant
            hay_len == hay@.len(),
            sub_len == sub@.len(),
            sub_len <= hay_len,
            start <= hay_len - sub_len + 1,
            forall|i: int| 0 <= i < start ==> !substr_at(hay@, sub@, i),
        decreases hay_len - sub_len + 1 - start,
    {
        if start > hay_len - sub_len {
            assert(!contains_substr(hay@, sub@));
            return false;
        }
        let mut j: usize = 0;
        let mut matched = true;
        while j < sub_len
            invariant
                hay_len == hay@.len(),
                sub_len == sub@.len(),
                start + sub_len <= hay_len,
                j <= sub_len,
                matched ==> forall|k: int| 0 <= k < j ==> hay@[start + k] == sub@[k],
                !matched ==> !substr_at(hay@, sub@, start as int),
                !matched ==> 1 <= sub_len,
            decreases sub_len - j,
        {
            if matched && hay.get_char(start + j) != sub.get_char(j) {
                assert(!substr_at(hay@, sub@, start as int)) by {
                    if substr_at(hay@, sub@, start as int) {
                        assert(hay@.subrange(start as int, start + sub@.len() as int)[j as int]
                            == hay@[start + j]);
                    }
                }
                matched = false;
            }
            j += 1;
        }
        if matched {
            assert(substr_at(hay@, sub@, start as int)) by {
                assert(hay@.subrange(start as int, start + sub@.len() as int) =~= sub@);
            }
            return true;
        }
        assert(start < hay_len);
        start += 1;
    }
}

} // verus!
