//! Secret scalars of the secp256k1 group, as 32 bytes, most significant
//! byte first.
use vstd::prelude::*;

verus! {

/// The number that a byte string stands for, most significant byte first.
pub open spec fn be_value(bytes: Seq<u8>) -> nat
    decreases bytes.len(),
{
    if bytes.len() == 0 {
        0
    } else {
        be_value(bytes.drop_last()) * 256 + bytes.last() as nat
    }
}

/// The order of the secp256k1 group.
pub open spec fn curve_order() -> nat {
    0xFFFFFFFFFFFFFFFFFFFFFFFFFFFFFFFEBAAEDCE6AF48A03BBFD25E8CD0364141nat
}

/// A secret scalar is valid when it lies in `[1, curve_order() - 1]`.
pub open spec fn is_valid_scalar(bytes: Seq<u8>) -> bool {
    bytes.len() == 32 && 1 <= be_value(bytes) < curve_order()
}

/// The order of the group, most significant byte first.
pub const CURVE_ORDER: [u8; 32] = [
    0xFF, 0xFF, 0xFF, 0xFF, 0xFF, 0xFF, 0xFF, 0xFF,
    0xFF, 0xFF, 0xFF, 0xFF, 0xFF, 0xFF, 0xFF, 0xFE,
    0xBA, 0xAE, 0xDC, 0xE6, 0xAF, 0x48, 0xA0, 0x3B,
    0xBF, 0xD2, 0x5E, 0x8C, 0xD0, 0x36, 0x41, 0x41,
];

/// One more byte at the end multiplies the value by 256 and adds the byte.
pub proof fn lemma_be_value_step(bytes: Seq<u8>, n: int)
    requires
        0 <= n < bytes.len(),
    ensures
        be_value(bytes.take(n + 1)) == be_value(bytes.take(n)) * 256 + bytes[n] as nat,
{
    assert(bytes.take(n + 1).drop_last() =~= bytes.take(n));
}

/// A prefix that is already smaller stays smaller however both strings go on.
proof fn lemma_smaller_prefix_decides(a: Seq<u8>, b: Seq<u8>, n: int)
    requires
        a.len() == b.len(),
        0 <= n <= a.len(),
        be_value(a.take(n)) < be_value(b.take(n)),
    ensures
        be_value(a) < be_value(b),
    decreases a.len() - n,
{
    if n == a.len() {
        assert(a.take(n) =~= a);
        assert(b.take(n) =~= b);
    } else {
        lemma_be_value_step(a, n);
        lemma_be_value_step(b, n);
        lemma_smaller_prefix_decides(a, b, n + 1);
    }
}

/// Two strings of one length that agree up to a byte compare as that byte
/// does.
pub proof fn lemma_first_difference_decides(a: Seq<u8>, b: Seq<u8>, n: int)
    requires
        a.len() == b.len(),
        0 <= n < a.len(),
        a.take(n) == b.take(n),
        a[n] < b[n],
    ensures
        be_value(a) < be_value(b),
{
    lemma_be_value_step(a, n);
    lemma_be_value_step(b, n);
    lemma_smaller_prefix_decides(a, b, n + 1);
}

/// A string stands for zero exactly when all its bytes are zero.
pub proof fn lemma_zero_value(bytes: Seq<u8>)
    ensures
        be_value(bytes) == 0 <==> (forall|i: int| 0 <= i < bytes.len() ==> bytes[i] == 0),
    decreases bytes.len(),
{
    if bytes.len() > 0 {
        let front = bytes.drop_last();
        lemma_zero_value(front);
        if be_value(bytes) == 0 {
            assert forall|i: int| 0 <= i < bytes.len() implies bytes[i] == 0 by {
                if i < bytes.len() - 1 {
                    assert(front[i] == bytes[i]);
                }
            }
        }
        if forall|i: int| 0 <= i < bytes.len() ==> bytes[i] == 0 {
            assert forall|i: int| 0 <= i < front.len() implies front[i] == 0 by {
                assert(front[i] == bytes[i]);
            }
        }
    }
}

/// The bytes of `CURVE_ORDER` stand for the order of the group.
pub proof fn lemma_curve_order_bytes()
    ensures
        be_value(CURVE_ORDER@) == curve_order(),
{
    let s = CURVE_ORDER@;
    assert(s.take(0).len() == 0);
    assert(be_value(s.take(0)) == 0);
    lemma_be_value_step(s, 0);
    lemma_be_value_step(s, 1);
    lemma_be_value_step(s, 2);
    lemma_be_value_step(s, 3);
    assert(be_value(s.take(4)) == 0xFFFFFFFFnat);
    lemma_be_value_step(s, 4);
    lemma_be_value_step(s, 5);
    lemma_be_value_step(s, 6);
    lemma_be_value_step(s, 7);
    assert(be_value(s.take(8)) == 0xFFFFFFFFFFFFFFFFnat);
    lemma_be_value_step(s, 8);
    lemma_be_value_step(s, 9);
    lemma_be_value_step(s, 10);
    lemma_be_value_step(s, 11);
    assert(be_value(s.take(12)) == 0xFFFFFFFFFFFFFFFFFFFFFFFFnat);
    lemma_be_value_step(s, 12);
    lemma_be_value_step(s, 13);
    lemma_be_value_step(s, 14);
    lemma_be_value_step(s, 15);
    assert(be_value(s.take(16)) == 0xFFFFFFFFFFFFFFFFFFFFFFFFFFFFFFFEnat);
    lemma_be_value_step(s, 16);
    lemma_be_value_step(s, 17);
    lemma_be_value_step(s, 18);
    lemma_be_value_step(s, 19);
    assert(be_value(s.take(20)) == 0xFFFFFFFFFFFFFFFFFFFFFFFFFFFFFFFEBAAEDCE6nat);
    lemma_be_value_step(s, 20);
    lemma_be_value_step(s, 21);
    lemma_be_value_step(s, 22);
    lemma_be_value_step(s, 23);
    assert(be_value(s.take(24)) == 0xFFFFFFFFFFFFFFFFFFFFFFFFFFFFFFFEBAAEDCE6AF48A03Bnat);
    lemma_be_value_step(s, 24);
    lemma_be_value_step(s, 25);
    lemma_be_value_step(s, 26);
    lemma_be_value_step(s, 27);
    assert(be_value(s.take(28)) == 0xFFFFFFFFFFFFFFFFFFFFFFFFFFFFFFFEBAAEDCE6AF48A03BBFD25E8Cnat);
    lemma_be_value_step(s, 28);
    lemma_be_value_step(s, 29);
    lemma_be_value_step(s, 30);
    lemma_be_value_step(s, 31);
    assert(s.take(32) =~= s);
}

/// Tells whether `a` stands for a smaller number than `b`.
pub fn is_below(a: &[u8; 32], b: &[u8; 32]) -> (below: bool)
    ensures
        below == (be_value(a@) < be_value(b@)),
{
    let mut i: usize = 0;
    while i < 32
        invariant
            0 <= i <= 32,
            a@.take(i as int) == b@.take(i as int),
        decreases 32 - i,
    {
        if a[i] < b[i] {
            proof {
                lemma_first_difference_decides(a@, b@, i as int);
            }
            return true;
        }
        if a[i] > b[i] {
            proof {
                lemma_first_difference_decides(b@, a@, i as int);
            }
            return false;
        }
        assert(a@.take(i + 1) =~= a@.take(i as int).push(a@[i as int]));
        assert(b@.take(i + 1) =~= b@.take(i as int).push(b@[i as int]));
        i = i + 1;
    }
    assert(a@.take(32) =~= a@);
    assert(b@.take(32) =~= b@);
    false
}

/// Tells whether `a` stands for zero.
pub fn is_zero(a: &[u8; 32]) -> (zero: bool)
    ensures
        zero == (be_value(a@) == 0),
{
    let mut i: usize = 0;
    while i < 32
        invariant
            0 <= i <= 32,
            forall|k: int| 0 <= k < i ==> a@[k] == 0,
        decreases 32 - i,
    {
        if a[i] != 0 {
            proof {
                lemma_zero_value(a@);
            }
            return false;
        }
        i = i + 1;
    }
    proof {
        lemma_zero_value(a@);
    }
    true
}

/// Tells whether 32 bytes are a valid secret scalar.
pub fn scalar_in_range(bytes: &[u8; 32]) -> (valid: bool)
    ensures
        valid == is_valid_scalar(bytes@),
{
    proof {
        lemma_curve_order_bytes();
    }
    let order = CURVE_ORDER;
    !is_zero(bytes) && is_below(bytes, &order)
}

} // verus!
