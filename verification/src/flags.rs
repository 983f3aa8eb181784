//! Combining VPI flag bits.
use vstd::prelude::*;

verus! {

/// The bitwise OR of all values in `s`, taken from the left starting at 0.
pub open spec fn or_all(s: Seq<u64>) -> u64
    decreases s.len(),
{
    if s.len() == 0 {
        0
    } else {
        or_all(s.drop_last()) | s.last()
    }
}

/// Combines flag bits into one flags word.
pub fn flags(values: &[u64]) -> (r: u64)
    ensures
        r == or_all(values@),
        // Every flag given is set in the result.
        forall|i: int| 0 <= i < values@.len() ==> #[trigger] values@[i] & r == values@[i],
        // No bit is set that no flag given has.
        forall|m: u64|
            (forall|i: int| 0 <= i < values@.len() ==> #[trigger] values@[i] & m == 0) ==> #[trigger] (r
                & m) == 0,
{
    proof {
        lemma_flags_are_exactly_the_union(values@);
    }
    let mut acc: u64 = 0;
    let mut i: usize = 0;
    while i < values.len()
        invariant
            i <= values@.len(),
            acc == or_all(values@.take(i as int)),
        decreases values@.len() - i,
    {
        assert(values@.take(i + 1).drop_last() =~= values@.take(i as int));
        acc = acc | values[i];
        i = i + 1;
    }
    assert(values@.take(values@.len() as int) =~= values@);
    acc
}

proof fn lemma_or_all_contains(s: Seq<u64>, i: int)
    requires
        0 <= i < s.len(),
    ensures
        s[i] & or_all(s) == s[i],
    decreases s.len(),
{
    let a = or_all(s.drop_last());
    let y = s.last();
    assert(or_all(s) == a | y);
    if i == s.len() - 1 {
        assert(s[i] == y);
        assert(y & (a | y) == y) by (bit_vector);
        assert(s[i] & or_all(s) == s[i]);
    } else {
        lemma_or_all_contains(s.drop_last(), i);
        let x = s[i];
        assert(s.drop_last()[i] == x);
        assert(x & a == x ==> x & (a | y) == x) by (bit_vector);
        assert(x & a == x);
        assert(s[i] & or_all(s) == s[i]);
    }
}

proof fn lemma_or_all_within(s: Seq<u64>, m: u64)
    requires
        forall|i: int| 0 <= i < s.len() ==> #[trigger] s[i] & m == 0,
    ensures
        or_all(s) & m == 0,
    decreases s.len(),
{
    if s.len() == 0 {
        assert(0u64 & m == 0) by (bit_vector);
    } else {
        assert forall|i: int| 0 <= i < s.drop_last().len() implies #[trigger] s.drop_last()[i] & m
            == 0 by {
            assert(s.drop_last()[i] == s[i]);
        }
        lemma_or_all_within(s.drop_last(), m);
        let a = or_all(s.drop_last());
        let y = s.last();
        assert(s[s.len() - 1] & m == 0);
        assert(a & m == 0 && y & m == 0 ==> (a | y) & m == 0) by (bit_vector);
    }
}

/// The combined flags word is exactly the union of the flags given: each
/// flag's bits are all set in it, and a bit that no flag has is clear.
pub proof fn lemma_flags_are_exactly_the_union(s: Seq<u64>)
    ensures
        forall|i: int| 0 <= i < s.len() ==> #[trigger] s[i] & or_all(s) == s[i],
        forall|m: u64|
            (forall|i: int| 0 <= i < s.len() ==> #[trigger] s[i] & m == 0) ==> #[trigger] (or_all(s)
                & m) == 0,
{
    assert forall|i: int| 0 <= i < s.len() implies #[trigger] s[i] & or_all(s) == s[i] by {
        lemma_or_all_contains(s, i);
    }
    assert forall|m: u64|
        (forall|i: int| 0 <= i < s.len() ==> #[trigger] s[i] & m == 0) implies #[trigger] (or_all(s)
            & m) == 0 by {
        lemma_or_all_within(s, m);
    }
}

} // verus!
