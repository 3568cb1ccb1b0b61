//! Median of a window of weight samples. Samples are handed over as
//! integers that order as the weights do; such a key is made here from the
//! bit pattern of a weight in the IEEE 754 double format.

use vstd::prelude::*;
use vstd::seq_lib::to_multiset_update;

verus! {

/// Bit that holds the sign in the pattern of a double.
pub const SIGN_BIT: u64 = 0x8000_0000_0000_0000;

/// The key of a bit pattern. A pattern without the sign bit is its own key;
/// one with the sign bit, of magnitude `m`, has the key `-1 - m`, so that a
/// larger magnitude below zero gives a smaller key.
pub open spec fn key_of(bits: u64) -> int {
    if bits >= SIGN_BIT {
        -1 - (bits - SIGN_BIT)
    } else {
        bits as int
    }
}

/// The bit pattern that has the key `key`.
pub open spec fn bits_of(key: i64) -> int {
    if key < 0 {
        -1 - key + SIGN_BIT
    } else {
        key as int
    }
}

/// Makes the key of a bit pattern.
pub fn ordered_key(bits: u64) -> (key: i64)
    ensures
        key == key_of(bits),
        bits_of(key) == bits,
{
    if bits >= SIGN_BIT {
        let magnitude: u64 = bits - SIGN_BIT;
        -1 - (magnitude as i64)
    } else {
        bits as i64
    }
}

/// Gives back the bit pattern of a key.
pub fn key_bits(key: i64) -> (bits: u64)
    ensures
        bits == bits_of(key),
        key_of(bits) == key,
{
    if key < 0 {
        let magnitude: u64 = (-1 - key) as u64;
        magnitude + SIGN_BIT
    } else {
        key as u64
    }
}

/// Keys order as the numbers behind the patterns do: among patterns
/// without the sign bit the larger pattern has the larger key, among those
/// with it the larger pattern has the smaller key, and every pattern with
/// the sign bit has a smaller key than every pattern without.
pub proof fn lemma_keys_order(a: u64, b: u64)
    ensures
        a < SIGN_BIT && b < SIGN_BIT ==> (a < b <==> key_of(a) < key_of(b)),
        a >= SIGN_BIT && b >= SIGN_BIT ==> (a < b <==> key_of(a) > key_of(b)),
        a >= SIGN_BIT && b < SIGN_BIT ==> key_of(a) < key_of(b),
        a != b ==> key_of(a) != key_of(b),
{
}

/// Whether `s` ascends.
pub open spec fn ascending(s: Seq<i64>) -> bool {
    forall|i: int, j: int| 0 <= i <= j < s.len() ==> s[i] <= s[j]
}

/// Exchanging two entries of a sequence keeps what it holds.
proof fn lemma_exchange_keeps_multiset(s: Seq<i64>, i: int, j: int)
    requires
        0 <= i < s.len(),
        0 <= j < s.len(),
    ensures
        s.update(i, s[j]).update(j, s[i]).to_multiset() == s.to_multiset(),
{
    let t = s.update(i, s[j]);
    to_multiset_update(s, i, s[j]);
    to_multiset_update(t, j, s[i]);
    s.to_multiset_ensures();
    assert(s.contains(s[i]));
    assert(s.contains(s[j]));
    assert(t.update(j, s[i]).to_multiset() =~= s.to_multiset());
}

/// Sorts `samples` in place, ascending.
fn sort(samples: &mut Vec<i64>)
    ensures
        ascending(final(samples)@),
        final(samples)@.to_multiset() == old(samples)@.to_multiset(),
        final(samples)@.len() == old(samples)@.len(),
{
    let n = samples.len();
    let mut i: usize = 1;
    while i < n
        invariant
            samples@.len() == n,
            1 <= i,
            ascending(samples@.take(if i <= n { i as int } else { n as int })),
            samples@.to_multiset() == old(samples)@.to_multiset(),
        decreases n - i,
    {
        let mut j: usize = i;
        assert forall|a: int, b: int| 0 <= a <= b <= i && b != j implies samples@[a]
            <= samples@[b] by {
            assert(samples@.take(i as int)[a] <= samples@.take(i as int)[b]);
        }
        while j > 0 && samples[j - 1] > samples[j]
            invariant
                samples@.len() == n,
                j <= i < n,
                forall|a: int, b: int| 0 <= a <= b <= i && b != j ==> samples@[a] <= samples@[b],
                samples@.to_multiset() == old(samples)@.to_multiset(),
            decreases j,
        {
            let ghost before = samples@;
            let low = samples[j - 1];
            let high = samples[j];
            samples.set(j - 1, high);
            samples.set(j, low);
            proof {
                lemma_exchange_keeps_multiset(before, j - 1, j as int);
            }
            j = j - 1;
        }
        i = i + 1;
        assert forall|a: int, b: int| 0 <= a <= b < i implies samples@.take(i as int)[a]
            <= samples@.take(i as int)[b] by {
            if b != j {
            } else if a < j {
                assert(samples@[a] <= samples@[j - 1]);
            }
        }
    }
    assert(samples@.take(n as int) =~= samples@);
}

/// Median of the samples: sorts them in place, ascending, and returns the
/// middle entry, the upper of the two middle ones for an even count.
pub fn median(weights: &mut Vec<i64>) -> (middle: i64)
    requires
        old(weights)@.len() > 0,
    ensures
        ascending(final(weights)@),
        final(weights)@.to_multiset() == old(weights)@.to_multiset(),
        final(weights)@.len() == old(weights)@.len(),
        middle == final(weights)@[old(weights)@.len() as int / 2],
{
    sort(weights);
    let middle = weights.len() / 2;
    weights[middle]
}

/// Two ascending sequences that hold the same samples are equal: the
/// median does not depend on the order in which the samples came.
pub proof fn lemma_median_is_order_free(a: Seq<i64>, b: Seq<i64>)
    requires
        ascending(a),
        ascending(b),
        a.to_multiset() == b.to_multiset(),
    ensures
        a == b,
    decreases a.len(),
{
    a.to_multiset_ensures();
    b.to_multiset_ensures();
    if a.len() == 0 {
        assert(a =~= b);
    } else {
        // The largest sample is last in both.
        let x = a.last();
        let y = b.last();
        assert(a.contains(x));
        assert(b.contains(y));
        assert(b.to_multiset().count(x) > 0);
        assert(b.contains(x));
        assert(a.to_multiset().count(y) > 0);
        assert(a.contains(y));
        assert(x == y);
        let a0 = a.drop_last();
        let b0 = b.drop_last();
        assert(a0 =~= a.remove(a.len() - 1));
        assert(b0 =~= b.remove(b.len() - 1));
        assert(a0.to_multiset() =~= b0.to_multiset());
        lemma_median_is_order_free(a0, b0);
        assert(a =~= a0.push(x));
        assert(b =~= b0.push(y));
    }
}

} // verus!
