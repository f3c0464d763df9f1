//! Finding the first occurrence of a value in a sequence.

use vstd::prelude::*;

verus! {

/// Where `x` first occurs in `s`, or the length of `s` where it does not.
pub open spec fn first_index_of<A>(s: Seq<A>, x: A) -> int
    decreases s.len(),
{
    if s.len() == 0 {
        0
    } else if s[0] == x {
        0
    } else {
        1 + first_index_of(s.drop_first(), x)
    }
}

/// The first occurrence is the place before which `x` does not occur and at
/// which it does, or the end.
pub proof fn lemma_first_index_of<A>(s: Seq<A>, x: A, i: int)
    requires
        0 <= i <= s.len(),
        forall|j: int| 0 <= j < i ==> s[j] != x,
        i == s.len() || s[i] == x,
    ensures
        first_index_of(s, x) == i,
    decreases s.len(),
{
    if s.len() != 0 && i != 0 {
        let rest = s.drop_first();
        assert forall|j: int| 0 <= j < i - 1 implies rest[j] != x by {
            assert(rest[j] == s[j + 1]);
        }
        lemma_first_index_of(rest, x, i - 1);
    }
}

/// What the first occurrence is: a place within the sequence or its end, with
/// `x` at it and not before it.
pub proof fn lemma_first_index_of_is_first<A>(s: Seq<A>, x: A)
    ensures
        0 <= first_index_of(s, x) <= s.len(),
        first_index_of(s, x) < s.len() ==> s[first_index_of(s, x)] == x,
        forall|j: int| 0 <= j < first_index_of(s, x) ==> s[j] != x,
    decreases s.len(),
{
    if s.len() != 0 && s[0] != x {
        let rest = s.drop_first();
        lemma_first_index_of_is_first(rest, x);
        assert forall|j: int| 0 <= j < first_index_of(s, x) implies s[j] != x by {
            if j > 0 {
                assert(rest[j - 1] == s[j]);
            }
        }
    }
}

/// The first occurrence after one more value is appended.
pub proof fn lemma_first_index_of_push<A>(s: Seq<A>, y: A, x: A)
    ensures
        first_index_of(s.push(y), x) == if first_index_of(s, x) < s.len() {
            first_index_of(s, x)
        } else if y == x {
            s.len() as int
        } else {
            s.len() as int + 1
        },
{
    lemma_first_index_of_is_first(s, x);
    let i = first_index_of(s, x);
    let t = s.push(y);
    if i < s.len() {
        assert(t[i] == x);
        assert forall|j: int| 0 <= j < i implies t[j] != x by {
            assert(t[j] == s[j]);
        }
        lemma_first_index_of(t, x, i);
    } else {
        assert forall|j: int| 0 <= j < s.len() implies t[j] != x by {
            assert(t[j] == s[j]);
        }
        if y == x {
            lemma_first_index_of(t, x, s.len() as int);
        } else {
            lemma_first_index_of(t, x, t.len() as int);
        }
    }
}

} // verus!
