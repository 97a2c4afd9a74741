use vstd::prelude::*;
use crate::types::AccountId;

verus! {

/// `i` is the first position of `a` in `s`.
pub open spec fn is_first(s: Seq<AccountId>, a: AccountId, i: int) -> bool {
    &&& 0 <= i < s.len()
    &&& s[i] == a
    &&& forall|j: int| 0 <= j < i ==> s[j] != a
}

/// The first position of `a` in `s`, or -1 where `a` does not occur.
pub open spec fn first_index(s: Seq<AccountId>, a: AccountId) -> int {
    if exists|i: int| is_first(s, a, i) {
        choose|i: int| is_first(s, a, i)
    } else {
        -1
    }
}

/// There is only one first position.
pub proof fn lemma_first_unique(s: Seq<AccountId>, a: AccountId, i: int, k: int)
    requires
        is_first(s, a, i),
        is_first(s, a, k),
    ensures
        i == k,
{
    if i < k {
        assert(s[i] != a);
    } else if k < i {
        assert(s[k] != a);
    }
}

/// What `first_index` gives: a first position, or -1 exactly where `a` is absent.
pub proof fn lemma_first_index(s: Seq<AccountId>, a: AccountId)
    ensures
        first_index(s, a) == -1 <==> !s.contains(a),
        first_index(s, a) != -1 ==> is_first(s, a, first_index(s, a)),
{
    if exists|i: int| is_first(s, a, i) {
        let i = choose|i: int| is_first(s, a, i);
        assert(s.contains(a));
    } else if s.contains(a) {
        let k = choose|k: int| 0 <= k < s.len() && s[k] == a;
        lemma_exists_first(s, a, k);
    }
}

proof fn lemma_exists_first(s: Seq<AccountId>, a: AccountId, k: int)
    requires
        0 <= k < s.len(),
        s[k] == a,
    ensures
        exists|i: int| is_first(s, a, i),
    decreases k,
{
    if exists|j: int| 0 <= j < k && s[j] == a {
        let j = choose|j: int| 0 <= j < k && s[j] == a;
        lemma_exists_first(s, a, j);
    } else {
        assert(is_first(s, a, k));
    }
}

/// The first position of `a` in `addresses`, if any.
pub fn find_first(addresses: &Vec<AccountId>, a: AccountId) -> (r: Option<usize>)
    ensures
        match r {
            Some(i) => i as int == first_index(addresses@, a) && is_first(addresses@, a, i as int),
            None => first_index(addresses@, a) == -1 && !addresses@.contains(a),
        },
{
    let mut i: usize = 0;
    while i < addresses.len()
        invariant
            0 <= i <= addresses@.len(),
            forall|j: int| 0 <= j < i ==> addresses@[j] != a,
        decreases addresses@.len() - i,
    {
        if addresses[i] == a {
            proof {
                assert(is_first(addresses@, a, i as int));
                lemma_first_index(addresses@, a);
                lemma_first_unique(addresses@, a, i as int, first_index(addresses@, a));
            }
            return Some(i);
        }
        i = i + 1;
    }
    proof {
        lemma_first_index(addresses@, a);
    }
    None
}

} // verus!
