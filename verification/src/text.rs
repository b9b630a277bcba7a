//! Verified text scanning.
//!
//! The engine never parses vendor messages beyond one question: does a
//! failure text carry a given marker?  This module supplies the character
//! extraction and the substring search that question needs, with exact
//! contracts over the strings' character sequences.

use vstd::prelude::*;
use vstd::std_specs::iter::IteratorSpec;

verus! {

broadcast use vstd::string::group_string_axioms;

/// Whether `p` occurs as a contiguous run inside `s`.
pub open spec fn spec_contains_seq(s: Seq<char>, p: Seq<char>) -> bool {
    exists|i: int| 0 <= i && i + p.len() <= s.len() && #[trigger] s.subrange(i, i + p.len()) == p
}

/// The characters of a string, in order.
pub fn string_chars(s: &str) -> (v: Vec<char>)
    ensures
        v@ == s@,
{
    let mut v: Vec<char> = Vec::new();
    let mut it = s.chars();
    proof {
        assert(it.remaining() == s@);
    }
    loop
        invariant
            it.decrease() is Some,
            v@ + it.remaining() == s@,
        ensures
            v@ == s@,
        decreases it.decrease()->0,
    {
        let ghost rem0 = it.remaining();
        let ghost v0 = v@;
        match it.next() {
            Some(c) => {
                proof {
                    assert(rem0.len() > 0);
                    assert(c == rem0[0]);
                    assert(it.remaining() == rem0.drop_first());
                }
                v.push(c);
                proof {
                    assert(v@ + it.remaining() =~= v0 + rem0);
                }
            },
            None => {
                proof {
                    assert(rem0.len() == 0);
                    assert(v@ + rem0 =~= v@);
                }
                break ;
            },
        }
    }
    v
}

/// Whether the needle occurs contiguously in the haystack.
pub fn contains_chars(hay: &Vec<char>, needle: &Vec<char>) -> (r: bool)
    ensures
        r == spec_contains_seq(hay@, needle@),
{
    let n = hay.len();
    let m = needle.len();
    if m > n {
        proof {
            assert(!spec_contains_seq(hay@, needle@));
        }
        return false;
    }
    if m == 0 {
        proof {
            assert(spec_contains_seq(hay@, needle@)) by {
                assert(hay@.subrange(0, 0 + needle@.len() as int) =~= needle@);
            }
        }
        return true;
    }
    let mut i: usize = 0;
    while i <= n - m
        invariant
            1 <= m <= n,
            n == hay@.len(),
            m == needle@.len(),
            i <= n - m + 1,
            forall|i2: int| 0 <= i2 < i ==> #[trigger] hay@.subrange(i2, i2 + m) != needle@,
        decreases n - m + 1 - i,
    {
        let mut matched = true;
        let mut j: usize = 0;
        while matched && j < m
            invariant
                m <= n,
                n == hay@.len(),
                m == needle@.len(),
                i + m <= n,
                j <= m,
                matched ==> forall|k: int| 0 <= k < j ==> hay@[i + k] == needle@[k],
                !matched ==> hay@.subrange(i as int, i + m) != needle@,
            decreases m - j, (if matched { 1int } else { 0int }),
        {
            if hay[i + j] != needle[j] {
                proof {
                    assert(hay@.subrange(i as int, i + m)[j as int] != needle@[j as int]);
                }
                matched = false;
            } else {
                j = j + 1;
            }
        }
        if matched {
            proof {
                assert(hay@.subrange(i as int, i + m) =~= needle@);
            }
            return true;
        }
        i = i + 1;
    }
    proof {
        assert forall|i2: int| 0 <= i2 && i2 + m <= n implies #[trigger] hay@.subrange(i2, i2 + m)
            != needle@ by {
            assert(i2 < n - m + 1);
        }
    }
    false
}

} // verus!
