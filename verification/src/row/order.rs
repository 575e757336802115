//! Three-way orders on integers and on byte strings, with the laws that make
//! them total orders.

use std::cmp::Ordering;
use vstd::prelude::*;

verus! {

/// The ordering that a sign stands for: less for a negative one, greater for
/// a positive one, equal for zero.
pub open spec fn ordering_of(sign: int) -> Ordering {
    if sign < 0 {
        Ordering::Less
    } else if sign > 0 {
        Ordering::Greater
    } else {
        Ordering::Equal
    }
}

/// Turns a sign into an ordering.
pub fn sign_to_ordering(sign: i8) -> (o: Ordering)
    ensures
        sign < 0 ==> o == Ordering::Less,
        sign == 0 ==> o == Ordering::Equal,
        sign > 0 ==> o == Ordering::Greater,
{
    if sign < 0 {
        Ordering::Less
    } else if sign > 0 {
        Ordering::Greater
    } else {
        Ordering::Equal
    }
}

/// Ten to the power `n`.
pub open spec fn pow10(n: nat) -> int
    decreases n,
{
    if n == 0 {
        1
    } else {
        10 * pow10((n - 1) as nat)
    }
}

/// Every power of ten is positive.
pub proof fn lemma_pow10_positive(n: nat)
    ensures
        pow10(n) > 0,
    decreases n,
{
    if n > 0 {
        lemma_pow10_positive((n - 1) as nat);
    }
}

/// Order of the numbers `m1 / 10^s1` and `m2 / 10^s2`: `-1`, `0` or `1`.
pub open spec fn decimal_order(m1: int, s1: nat, m2: int, s2: nat) -> int {
    int_order(m1 * pow10(s2), m2 * pow10(s1))
}

/// If `m1 / 10^s1 <= m2 / 10^s2 <= m3 / 10^s3` then the first is at most the
/// third, and smaller as soon as one of the two steps is strict.
pub proof fn lemma_decimal_order_transitive(m1: int, s1: nat, m2: int, s2: nat, m3: int, s3: nat)
    requires
        decimal_order(m1, s1, m2, s2) <= 0,
        decimal_order(m2, s2, m3, s3) <= 0,
    ensures
        decimal_order(m1, s1, m3, s3) <= 0,
        decimal_order(m1, s1, m2, s2) < 0 || decimal_order(m2, s2, m3, s3) < 0 ==> decimal_order(
            m1,
            s1,
            m3,
            s3,
        ) < 0,
{
    let d1 = pow10(s1);
    let d2 = pow10(s2);
    let d3 = pow10(s3);
    lemma_pow10_positive(s1);
    lemma_pow10_positive(s2);
    lemma_pow10_positive(s3);
    assert((m1 * d3) * d2 <= (m3 * d1) * d2) by (nonlinear_arith)
        requires
            m1 * d2 <= m2 * d1,
            m2 * d3 <= m3 * d2,
            d1 > 0,
            d3 > 0,
    ;
    assert(m1 * d3 <= m3 * d1) by (nonlinear_arith)
        requires
            (m1 * d3) * d2 <= (m3 * d1) * d2,
            d2 > 0,
    ;
    if m1 * d2 < m2 * d1 || m2 * d3 < m3 * d2 {
        assert((m1 * d3) * d2 < (m3 * d1) * d2) by (nonlinear_arith)
            requires
                m1 * d2 <= m2 * d1,
                m2 * d3 <= m3 * d2,
                m1 * d2 < m2 * d1 || m2 * d3 < m3 * d2,
                d1 > 0,
                d3 > 0,
        ;
        assert(m1 * d3 < m3 * d1) by (nonlinear_arith)
            requires
                (m1 * d3) * d2 < (m3 * d1) * d2,
                d2 > 0,
        ;
    }
}

/// The sign of `a - b`: `-1`, `0` or `1`.
pub open spec fn int_order(a: int, b: int) -> int {
    if a < b {
        -1
    } else if a > b {
        1
    } else {
        0
    }
}

/// Lexicographic order of `a` and `b` from position `i` on: the first
/// position that differs decides; if one ends first, it is the smaller.
pub open spec fn bytes_order_from(a: Seq<u8>, b: Seq<u8>, i: int) -> int
    decreases a.len() - i,
{
    if i < 0 {
        0
    } else if i >= a.len() {
        if i >= b.len() {
            0
        } else {
            -1
        }
    } else if i >= b.len() {
        1
    } else if a[i] < b[i] {
        -1
    } else if a[i] > b[i] {
        1
    } else {
        bytes_order_from(a, b, i + 1)
    }
}

/// Lexicographic order of two byte strings: `-1`, `0` or `1`.
pub open spec fn bytes_order(a: Seq<u8>, b: Seq<u8>) -> int {
    bytes_order_from(a, b, 0)
}

/// The first difference decides. If `a` and `b` agree before position `k`,
/// then `a` is smaller as soon as it ends at `k` and `b` does not, or holds
/// the smaller byte at `k`; and the two are equal if both end at `k`.
pub proof fn lemma_bytes_order_first_difference(a: Seq<u8>, b: Seq<u8>, k: int)
    requires
        0 <= k <= a.len(),
        k <= b.len(),
        forall|i: int| 0 <= i < k ==> a[i] == b[i],
    ensures
        bytes_order(a, b) == bytes_order_from(a, b, k),
        k == a.len() && k < b.len() ==> bytes_order(a, b) == -1,
        k < a.len() && k < b.len() && a[k] < b[k] ==> bytes_order(a, b) == -1,
        k == a.len() && k == b.len() ==> bytes_order(a, b) == 0,
    decreases k,
{
    if k > 0 {
        lemma_bytes_order_first_difference(a, b, k - 1);
    }
}

/// The order of two byte strings is one of `-1`, `0`, `1`, and swapping the
/// arguments negates it.
pub proof fn lemma_bytes_order_from_antisymmetric(a: Seq<u8>, b: Seq<u8>, i: int)
    requires
        0 <= i,
    ensures
        -1 <= bytes_order_from(a, b, i) <= 1,
        bytes_order_from(a, b, i) == -bytes_order_from(b, a, i),
    decreases a.len() - i,
{
    if i < a.len() && i < b.len() && a[i] == b[i] {
        lemma_bytes_order_from_antisymmetric(a, b, i + 1);
    }
}

/// Two byte strings that agree before `i` and compare equal from `i` on are
/// the same string.
pub proof fn lemma_bytes_order_from_equal(a: Seq<u8>, b: Seq<u8>, i: int)
    requires
        0 <= i <= a.len(),
        i <= b.len(),
        forall|k: int| 0 <= k < i ==> a[k] == b[k],
        bytes_order_from(a, b, i) == 0,
    ensures
        a == b,
    decreases a.len() - i,
{
    if i < a.len() && i < b.len() {
        lemma_bytes_order_from_equal(a, b, i + 1);
    }
}

/// A byte string compares equal to itself.
pub proof fn lemma_bytes_order_from_reflexive(a: Seq<u8>, i: int)
    requires
        0 <= i,
    ensures
        bytes_order_from(a, a, i) == 0,
    decreases a.len() - i,
{
    if i < a.len() {
        lemma_bytes_order_from_reflexive(a, i + 1);
    }
}

/// If `a <= b` and `b <= c` from `i` on, then `a <= c`, and `a < c` as soon as
/// one of the two is strict.
pub proof fn lemma_bytes_order_from_transitive(a: Seq<u8>, b: Seq<u8>, c: Seq<u8>, i: int)
    requires
        0 <= i,
        bytes_order_from(a, b, i) <= 0,
        bytes_order_from(b, c, i) <= 0,
    ensures
        bytes_order_from(a, c, i) <= 0,
        bytes_order_from(a, b, i) < 0 || bytes_order_from(b, c, i) < 0 ==> bytes_order_from(
            a,
            c,
            i,
        ) < 0,
    decreases a.len() - i,
{
    if i < a.len() && i < b.len() && i < c.len() && a[i] == b[i] && b[i] == c[i] {
        lemma_bytes_order_from_transitive(a, b, c, i + 1);
    }
}

/// Three-way comparison of two byte slices in lexicographic order.
///
/// Returns `-1`, `0` or `1` as `a` is smaller than, equal to or greater than `b`.
pub fn compare_bytes(a: &[u8], b: &[u8]) -> (r: i8)
    ensures
        r == bytes_order(a@, b@),
{
    let mut i: usize = 0;
    while i < a.len() && i < b.len()
        invariant
            i <= a.len(),
            i <= b.len(),
            bytes_order(a@, b@) == bytes_order_from(a@, b@, i as int),
        decreases a.len() - i,
    {
        if a[i] < b[i] {
            return -1;
        }
        if a[i] > b[i] {
            return 1;
        }
        i = i + 1;
    }
    if i < b.len() {
        -1
    } else if i < a.len() {
        1
    } else {
        0
    }
}

} // verus!
