//! Field elements of BN254 as they travel: 32 bytes, big-endian.
//!
//! A public input is a scalar, an integer below the prime order `r` of the
//! groups. A byte string that stands for `r` or more is no scalar, and no
//! proof is accepted for it. A coordinate of a G1 point is an integer below
//! the base modulus `p`, and its negative in the field is `p` less that
//! integer.

use vstd::prelude::*;
use crate::wire::rows;

verus! {

/// The prime order of the groups, the modulus of the scalar field, in 32
/// big-endian bytes.
pub const SCALAR_MODULUS: [u8; 32] = [
    0x30, 0x64, 0x4e, 0x72, 0xe1, 0x31, 0xa0, 0x29, 0xb8, 0x50, 0x45, 0xb6, 0x81, 0x81, 0x58, 0x5d,
    0x28, 0x33, 0xe8, 0x48, 0x79, 0xb9, 0x70, 0x91, 0x43, 0xe1, 0xf5, 0x93, 0xf0, 0x00, 0x00, 0x01,
];

/// The modulus of the base field, in 32 big-endian bytes.
pub const BASE_MODULUS: [u8; 32] = [
    0x30, 0x64, 0x4e, 0x72, 0xe1, 0x31, 0xa0, 0x29, 0xb8, 0x50, 0x45, 0xb6, 0x81, 0x81, 0x58, 0x5d,
    0x97, 0x81, 0x6a, 0x91, 0x68, 0x71, 0xca, 0x8d, 0x3c, 0x20, 0x8c, 0x16, 0xd8, 0x7c, 0xfd, 0x47,
];

/// The modulus of the base field.
pub open spec fn base_modulus() -> nat {
    0x30644e72e131a029b85045b68181585d97816a916871ca8d3c208c16d87cfd47nat
}

/// The prime order of the groups.
pub open spec fn scalar_modulus() -> nat {
    0x30644e72e131a029b85045b68181585d2833e84879b9709143e1f593f0000001nat
}

/// The integer that the first `n` bytes of a big-endian string stand for.
pub open spec fn be_prefix(bytes: Seq<u8>, n: nat) -> nat
    decreases n,
{
    if n == 0 {
        0
    } else {
        be_prefix(bytes, (n - 1) as nat) * 256 + bytes[n - 1] as nat
    }
}

/// The integer that a big-endian byte string stands for.
pub open spec fn be_value(bytes: Seq<u8>) -> nat {
    be_prefix(bytes, bytes.len())
}

/// The `n` big-endian bytes of an integer, its higher bytes dropped.
pub open spec fn be_bytes(value: nat, n: nat) -> Seq<u8>
    decreases n,
{
    if n == 0 {
        Seq::empty()
    } else {
        be_bytes(value / 256, (n - 1) as nat).push((value % 256) as u8)
    }
}

/// The integer that the last `k` bytes of a big-endian string stand for.
pub open spec fn be_low(bytes: Seq<u8>, k: nat) -> nat
    decreases k,
{
    if k == 0 {
        0
    } else {
        bytes[bytes.len() - k] as nat * weight((k - 1) as nat) + be_low(bytes, (k - 1) as nat)
    }
}

/// The negative of a coordinate in the base field: `p - y` for `0 < y < p`.
/// Zero is its own negative, and a string that stands for `p` or more is no
/// coordinate and is left as it is.
pub open spec fn negated_coordinate(y: Seq<u8>) -> Seq<u8> {
    if 0 < be_value(y) < base_modulus() {
        be_bytes((base_modulus() - be_value(y)) as nat, 32)
    } else {
        y
    }
}

/// `256` to the power `n`: the weight of a byte that `n` bytes follow.
pub open spec fn weight(n: nat) -> nat
    decreases n,
{
    if n == 0 {
        1
    } else {
        256 * weight((n - 1) as nat)
    }
}

/// Whether 32 bytes stand for a scalar.
pub open spec fn is_scalar(bytes: Seq<u8>) -> bool {
    bytes.len() == 32 && be_value(bytes) < scalar_modulus()
}

/// Whether every row of a table stands for a scalar.
pub open spec fn all_scalars(table: Seq<Seq<u8>>) -> bool {
    forall|i: int| 0 <= i < table.len() ==> is_scalar(#[trigger] table[i])
}

/// The bytes of `SCALAR_MODULUS` stand for the modulus.
pub proof fn lemma_modulus_bytes()
    ensures
        be_value(SCALAR_MODULUS@) == scalar_modulus(),
{
    reveal_with_fuel(be_prefix, 33);
}

/// The bytes of `BASE_MODULUS` stand for the base modulus.
pub proof fn lemma_base_modulus_bytes()
    ensures
        be_value(BASE_MODULUS@) == base_modulus(),
{
    reveal_with_fuel(be_prefix, 33);
}

/// A string is the bytes of its own value: no two strings of one length
/// stand for the same integer.
pub proof fn lemma_bytes_of_value(bytes: Seq<u8>, n: nat)
    requires
        n <= bytes.len(),
    ensures
        be_bytes(be_prefix(bytes, n), n) == bytes.subrange(0, n as int),
    decreases n,
{
    if n == 0 {
        assert(bytes.subrange(0, 0) =~= Seq::<u8>::empty());
    } else {
        let shorter = be_prefix(bytes, (n - 1) as nat);
        let value = be_prefix(bytes, n);
        lemma_bytes_of_value(bytes, (n - 1) as nat);
        assert(value == shorter * 256 + bytes[n - 1]);
        assert(value / 256 == shorter);
        assert(value % 256 == bytes[n - 1]);
        assert(bytes.subrange(0, n - 1).push(bytes[n - 1]) =~= bytes.subrange(0, n as int));
    }
}

/// The `n` bytes of an integer below `256` to the `n` stand for it.
pub proof fn lemma_value_of_bytes(value: nat, n: nat)
    requires
        value < weight(n),
    ensures
        be_bytes(value, n).len() == n,
        be_value(be_bytes(value, n)) == value,
    decreases n,
{
    if n > 0 {
        let front = be_bytes(value / 256, (n - 1) as nat);
        let all = be_bytes(value, n);
        assert(weight(n) == 256 * weight((n - 1) as nat));
        lemma_value_of_bytes(value / 256, (n - 1) as nat);
        assert(all == front.push((value % 256) as u8));
        lemma_equal_prefixes(all, front, (n - 1) as nat);
        assert(be_prefix(all, n) == be_prefix(all, (n - 1) as nat) * 256 + all[n - 1]);
    }
}

/// A coordinate and its negative add up to the modulus, differ, and are
/// each the negative of the other. Negating twice gives any string back.
pub proof fn lemma_negation_turns_back(y: Seq<u8>)
    requires
        y.len() == 32,
    ensures
        negated_coordinate(y).len() == 32,
        negated_coordinate(negated_coordinate(y)) == y,
        0 < be_value(y) < base_modulus() ==> {
            &&& be_value(negated_coordinate(y)) + be_value(y) == base_modulus()
            &&& negated_coordinate(y) != y
        },
{
    let value = be_value(y);
    if 0 < value < base_modulus() {
        let other = (base_modulus() - value) as nat;
        assert(weight(32) == 0x10000000000000000000000000000000000000000000000000000000000000000nat)
            by {
            reveal_with_fuel(weight, 33);
        }
        lemma_value_of_bytes(other, 32);
        lemma_bytes_of_value(y, 32);
        assert(y.subrange(0, 32) =~= y);
        assert((base_modulus() - other) as nat == value);
    }
}

/// A string splits into a front and its last `k` bytes: the front counts
/// `256` to the `k` times its own value.
pub proof fn lemma_front_and_low(bytes: Seq<u8>, k: nat)
    requires
        k <= bytes.len(),
    ensures
        be_value(bytes) == be_prefix(bytes, (bytes.len() - k) as nat) * weight(k) + be_low(
            bytes,
            k,
        ),
    decreases k,
{
    if k == 0 {
        assert(weight(0) == 1);
        assert(be_low(bytes, 0) == 0);
    } else {
        lemma_front_and_low(bytes, (k - 1) as nat);
        let m = (bytes.len() - k) as nat;
        let front = be_prefix(bytes, m);
        let byte = bytes[m as int] as nat;
        let w = weight((k - 1) as nat);
        assert(be_prefix(bytes, m + 1) == front * 256 + byte);
        assert(weight(k) == 256 * w);
        assert(be_low(bytes, k) == byte * w + be_low(bytes, (k - 1) as nat));
        assert((front * 256 + byte) * w == front * (256 * w) + byte * w) by (nonlinear_arith);
    }
}

/// The last `k` bytes decide their value: strings of one length that agree
/// there stand for the same integer there.
pub proof fn lemma_equal_lows(a: Seq<u8>, b: Seq<u8>, k: nat)
    requires
        a.len() == b.len(),
        k <= a.len(),
        forall|i: int| a.len() - k <= i < a.len() ==> a[i] == b[i],
    ensures
        be_low(a, k) == be_low(b, k),
    decreases k,
{
    if k > 0 {
        lemma_equal_lows(a, b, (k - 1) as nat);
    }
}

/// A string of `n` bytes stands for less than `256` to the `n`.
pub proof fn lemma_value_bound(bytes: Seq<u8>)
    ensures
        be_value(bytes) < weight(bytes.len()),
{
    if bytes.len() > 0 {
        lemma_leading_byte_bounds(bytes, bytes.len());
        let w = weight((bytes.len() - 1) as nat);
        assert((bytes[0] + 1) * w <= 256 * w) by (nonlinear_arith)
            requires
                bytes[0] + 1 <= 256,
                w >= 0,
        ;
    }
}

/// Strings that agree on their first `n` bytes have the same value there.
pub proof fn lemma_equal_prefixes(a: Seq<u8>, b: Seq<u8>, n: nat)
    requires
        n <= a.len(),
        n <= b.len(),
        forall|k: int| 0 <= k < n ==> a[k] == b[k],
    ensures
        be_prefix(a, n) == be_prefix(b, n),
    decreases n,
{
    if n > 0 {
        lemma_equal_prefixes(a, b, (n - 1) as nat);
    }
}

/// Big-endian order is decided at the front: once the first `j` bytes of
/// `a` stand for less than those of `b`, so does every longer prefix.
pub proof fn lemma_order_is_kept(a: Seq<u8>, b: Seq<u8>, j: nat, n: nat)
    requires
        j <= n,
        n <= a.len(),
        n <= b.len(),
        be_prefix(a, j) < be_prefix(b, j),
    ensures
        be_prefix(a, n) < be_prefix(b, n),
    decreases n - j,
{
    if j < n {
        lemma_order_is_kept(a, b, j, (n - 1) as nat);
    }
}

/// A string of zeros stands for zero.
pub proof fn lemma_zero_string(bytes: Seq<u8>, n: nat)
    requires
        n <= bytes.len(),
        forall|i: int| 0 <= i < n ==> bytes[i] == 0,
    ensures
        be_prefix(bytes, n) == 0,
    decreases n,
{
    if n > 0 {
        lemma_zero_string(bytes, (n - 1) as nat);
    }
}

/// The leading byte bounds the value: the first `n` bytes of a string that
/// begins with `b` stand for less than `(b + 1)` times the weight of its
/// first byte.
pub proof fn lemma_leading_byte_bounds(bytes: Seq<u8>, n: nat)
    requires
        1 <= n <= bytes.len(),
    ensures
        be_prefix(bytes, n) < (bytes[0] + 1) * weight((n - 1) as nat),
    decreases n,
{
    if n == 1 {
        assert(be_prefix(bytes, 0) == 0);
        assert(weight(0) == 1);
    } else {
        lemma_leading_byte_bounds(bytes, (n - 1) as nat);
        let w = weight((n - 2) as nat);
        let lead = bytes[0] + 1;
        let shorter = be_prefix(bytes, (n - 1) as nat);
        assert(weight((n - 1) as nat) == 256 * w);
        assert((shorter + 1) * 256 <= (lead * w) * 256) by (nonlinear_arith)
            requires
                shorter + 1 <= lead * w,
        ;
        assert((lead * w) * 256 == lead * (256 * w)) by (nonlinear_arith);
    }
}

/// Thirty-two bytes that begin with a byte below `0x30` stand for a scalar:
/// the modulus begins with `0x30`.
pub proof fn lemma_scalar_by_leading_byte(bytes: Seq<u8>)
    requires
        bytes.len() == 32,
        bytes[0] < 0x30,
    ensures
        is_scalar(bytes),
{
    lemma_leading_byte_bounds(bytes, 32);
    assert(weight(31) == 0x100000000000000000000000000000000000000000000000000000000000000nat) by {
        reveal_with_fuel(weight, 32);
    }
    let w = weight(31);
    assert((bytes[0] + 1) * w <= 0x30 * w) by (nonlinear_arith)
        requires
            bytes[0] + 1 <= 0x30,
            w >= 0,
    ;
}

/// Tests whether `a` stands for a smaller integer than `b`.
pub fn is_below(a: &[u8; 32], b: &[u8; 32]) -> (below: bool)
    ensures
        below == (be_value(a@) < be_value(b@)),
{
    let mut i: usize = 0;
    while i < 32
        invariant
            i <= 32,
            forall|k: int| 0 <= k < i ==> a@[k] == b@[k],
        decreases 32 - i,
    {
        if a[i] != b[i] {
            proof {
                lemma_equal_prefixes(a@, b@, i as nat);
                if a@[i as int] < b@[i as int] {
                    lemma_order_is_kept(a@, b@, (i + 1) as nat, 32);
                } else {
                    lemma_order_is_kept(b@, a@, (i + 1) as nat, 32);
                }
            }
            return a[i] < b[i];
        }
        i += 1;
    }
    proof {
        lemma_equal_prefixes(a@, b@, 32);
    }
    false
}

/// Negates a coordinate of the base field.
pub fn negate_coordinate(y: &[u8; 32]) -> (out: [u8; 32])
    ensures
        out@ == negated_coordinate(y@),
{
    let zero: [u8; 32] = [0u8; 32];
    proof {
        lemma_base_modulus_bytes();
        lemma_zero_string(zero@, 32);
    }
    if !is_below(&zero, y) || !is_below(y, &BASE_MODULUS) {
        return *y;
    }
    let mut out: [u8; 32] = [0u8; 32];
    let mut borrow: u8 = 0;
    let mut k: usize = 0;
    while k < 32
        invariant
            k <= 32,
            borrow <= 1,
            be_low(out@, k as nat) + be_low(y@, k as nat) == be_low(BASE_MODULUS@, k as nat)
                + borrow * weight(k as nat),
        decreases 32 - k,
    {
        let i: usize = 31 - k;
        let have: u16 = BASE_MODULUS[i] as u16;
        let take: u16 = y[i] as u16 + borrow as u16;
        let ghost before = out@;
        let ghost w = weight(k as nat);
        let ghost old_borrow = borrow as nat;
        if have >= take {
            out[i] = (have - take) as u8;
            borrow = 0;
        } else {
            out[i] = (have + 256 - take) as u8;
            borrow = 1;
        }
        proof {
            lemma_equal_lows(out@, before, k as nat);
            let digit = out@[i as int] as nat;
            assert(digit + y@[i as int] + old_borrow == have + borrow * 256);
            assert(weight((k + 1) as nat) == 256 * w);
            assert(digit * w + y@[i as int] * w + old_borrow * w == have * w + borrow * (256 * w))
                by (nonlinear_arith)
                requires
                    digit + y@[i as int] + old_borrow == have + borrow * 256,
            ;
        }
        k += 1;
    }
    proof {
        lemma_front_and_low(out@, 32);
        lemma_front_and_low(y@, 32);
        lemma_front_and_low(BASE_MODULUS@, 32);
        lemma_value_bound(out@);
        assert(borrow == 0);
        lemma_bytes_of_value(out@, 32);
        assert(out@.subrange(0, 32) =~= out@);
    }
    out
}

/// Tests whether `bytes` stands for a scalar.
pub fn holds_scalar(bytes: &[u8; 32]) -> (yes: bool)
    ensures
        yes == is_scalar(bytes@),
{
    proof {
        lemma_modulus_bytes();
    }
    is_below(bytes, &SCALAR_MODULUS)
}

/// Tests whether every row of `table` stands for a scalar.
pub fn hold_scalars<const N: usize>(table: &[[u8; 32]; N]) -> (yes: bool)
    ensures
        yes == all_scalars(rows(table@)),
{
    let mut i: usize = 0;
    while i < N
        invariant
            i <= N,
            rows(table@).len() == N,
            forall|k: int| 0 <= k < i ==> is_scalar(#[trigger] rows(table@)[k]),
        decreases N - i,
    {
        if !holds_scalar(&table[i]) {
            assert(!is_scalar(rows(table@)[i as int]));
            return false;
        }
        i += 1;
    }
    true
}

} // verus!
