use vstd::prelude::*;

verus! {

/// `i` is the first position of `s` that holds `true`.
pub open spec fn is_first_true(s: Seq<bool>, i: int) -> bool {
    0 <= i < s.len() && s[i] && forall|j: int| 0 <= j < i ==> !s[j]
}

/// The first position of `s` that holds `true`, if there is one.
pub open spec fn first_true(s: Seq<bool>) -> Option<int> {
    if exists|i: int| is_first_true(s, i) {
        Some(choose|i: int| is_first_true(s, i))
    } else {
        None
    }
}

/// Two first positions are the same position.
pub proof fn lemma_first_true_unique(s: Seq<bool>, i: int, k: int)
    requires
        is_first_true(s, i),
        is_first_true(s, k),
    ensures
        i == k,
{
}

/// Finds the first position of `s` that holds `true`.
pub fn find_first_true(s: &Vec<bool>) -> (r: Option<usize>)
    ensures
        r matches Some(i) ==> first_true(s@) == Some(i as int),
        r is None ==> first_true(s@) is None,
        r is None <==> forall|j: int| 0 <= j < s@.len() ==> !s@[j],
{
    let mut i: usize = 0;
    while i < s.len()
        invariant
            i <= s.len(),
            forall|j: int| 0 <= j < i ==> !s@[j],
        decreases s.len() - i,
    {
        if s[i] {
            assert(is_first_true(s@, i as int));
            let ghost k = choose|k: int| is_first_true(s@, k);
            proof {
                lemma_first_true_unique(s@, i as int, k);
            }
            return Some(i);
        }
        i += 1;
    }
    None
}

} // verus!
