use vstd::prelude::*;

verus! {

/// The base field modulus of BN254, most significant byte first.
pub const FIELD_MODULUS: [u8; 32] = [
    0x30, 0x64, 0x4e, 0x72, 0xe1, 0x31, 0xa0, 0x29, 0xb8, 0x50, 0x45, 0xb6, 0x81, 0x81, 0x58, 0x5d,
    0x97, 0x81, 0x6a, 0x91, 0x68, 0x71, 0xca, 0x8d, 0x3c, 0x20, 0x8c, 0x16, 0xd8, 0x7c, 0xfd, 0x47,
];

/// The order of the two groups of BN254, most significant byte first.
pub const GROUP_ORDER: [u8; 32] = [
    0x30, 0x64, 0x4e, 0x72, 0xe1, 0x31, 0xa0, 0x29, 0xb8, 0x50, 0x45, 0xb6, 0x81, 0x81, 0x58, 0x5d,
    0x28, 0x33, 0xe8, 0x48, 0x79, 0xb9, 0x70, 0x91, 0x43, 0xe1, 0xf5, 0x93, 0xf0, 0x00, 0x00, 0x01,
];

/// 256 to the power `digits`.
pub open spec fn weight(digits: nat) -> nat
    decreases digits,
{
    if digits == 0 {
        1
    } else {
        256 * weight((digits - 1) as nat)
    }
}

/// The number that a byte string writes, most significant byte first.
pub open spec fn be_value(bytes: Seq<u8>) -> nat
    decreases bytes.len(),
{
    if bytes.len() == 0 {
        0
    } else {
        bytes[0] as nat * weight((bytes.len() - 1) as nat) + be_value(bytes.drop_first())
    }
}

/// The 32 bytes that write a number below 256 to the power 32.
pub open spec fn be_bytes(value: nat) -> Seq<u8> {
    choose|bytes: Seq<u8>| bytes.len() == 32 && be_value(bytes) == value
}

/// The base field modulus of BN254.
pub open spec fn field_modulus() -> nat {
    be_value(FIELD_MODULUS@)
}

/// The order of the two groups of BN254: scalars below it stand for
/// different multiples of a point.
pub open spec fn group_order() -> nat {
    be_value(GROUP_ORDER@)
}

/// The coordinate of the opposite point: the additive inverse in the base
/// field. A string that writes no field element has none.
pub open spec fn negated_coordinate(y: Seq<u8>) -> Option<Seq<u8>> {
    if be_value(y) >= field_modulus() {
        None
    } else if be_value(y) == 0 {
        Some(be_bytes(0))
    } else {
        Some(be_bytes((field_modulus() - be_value(y)) as nat))
    }
}

/// A byte string writes a number below the weight of its length.
pub proof fn lemma_be_value_bound(bytes: Seq<u8>)
    ensures
        be_value(bytes) < weight(bytes.len()),
    decreases bytes.len(),
{
    if bytes.len() > 0 {
        lemma_be_value_bound(bytes.drop_first());
        let w = weight((bytes.len() - 1) as nat);
        let head = bytes[0] as nat;
        assert(head * w + w <= 256 * w) by (nonlinear_arith)
            requires
                head <= 255,
        ;
    }
}

/// Two byte strings of one length that write the same number are the same.
pub proof fn lemma_be_value_injective(left: Seq<u8>, right: Seq<u8>)
    requires
        left.len() == right.len(),
        be_value(left) == be_value(right),
    ensures
        left == right,
    decreases left.len(),
{
    if left.len() > 0 {
        let w = weight((left.len() - 1) as nat);
        let a = left[0] as nat;
        let b = right[0] as nat;
        let ra = be_value(left.drop_first());
        let rb = be_value(right.drop_first());
        lemma_be_value_bound(left.drop_first());
        lemma_be_value_bound(right.drop_first());
        assert(a == b) by (nonlinear_arith)
            requires
                a * w + ra == b * w + rb,
                ra < w,
                rb < w,
        ;
        lemma_be_value_injective(left.drop_first(), right.drop_first());
        assert(left =~= seq![left[0]] + left.drop_first());
        assert(right =~= seq![right[0]] + right.drop_first());
    } else {
        assert(left =~= right);
    }
}

/// The 32 bytes of a number are the only 32 bytes that write it.
pub proof fn lemma_be_bytes_of_value(bytes: Seq<u8>)
    requires
        bytes.len() == 32,
    ensures
        be_bytes(be_value(bytes)) == bytes,
{
    let found = be_bytes(be_value(bytes));
    assert(found.len() == 32 && be_value(found) == be_value(bytes));
    lemma_be_value_injective(found, bytes);
}

/// A byte string writes zero exactly when all its bytes are zero.
pub proof fn lemma_be_value_zero(bytes: Seq<u8>)
    ensures
        be_value(bytes) == 0 <==> forall|i: int| 0 <= i < bytes.len() ==> bytes[i] == 0,
    decreases bytes.len(),
{
    if bytes.len() > 0 {
        let rest = bytes.drop_first();
        lemma_be_value_zero(rest);
        lemma_weight_positive((bytes.len() - 1) as nat);
        let w = weight((bytes.len() - 1) as nat);
        let head = bytes[0] as nat;
        assert(head * w == 0 <==> head == 0) by (nonlinear_arith)
            requires
                w > 0,
        ;
        assert(head * w >= 0) by (nonlinear_arith);
        if be_value(bytes) == 0 {
            assert forall|i: int| 0 <= i < bytes.len() implies bytes[i] == 0 by {
                if i > 0 {
                    assert(rest[i - 1] == bytes[i]);
                }
            }
        }
        if forall|i: int| 0 <= i < bytes.len() ==> bytes[i] == 0 {
            assert forall|i: int| 0 <= i < rest.len() implies rest[i] == 0 by {
                assert(rest[i] == bytes[i + 1]);
            }
        }
    }
}

/// Every weight is positive.
pub proof fn lemma_weight_positive(digits: nat)
    ensures
        weight(digits) > 0,
    decreases digits,
{
    if digits > 0 {
        lemma_weight_positive((digits - 1) as nat);
    }
}

/// Weights grow with the number of digits.
pub proof fn lemma_weight_grows(fewer: nat, more: nat)
    requires
        fewer <= more,
    ensures
        weight(fewer) <= weight(more),
    decreases more,
{
    if fewer < more {
        lemma_weight_grows(fewer, (more - 1) as nat);
        lemma_weight_positive((more - 1) as nat);
    }
}

/// The order of the groups takes all of its 32 bytes: it is above every
/// number of 31 bytes.
pub proof fn lemma_group_order_is_large()
    ensures
        group_order() >= weight(31),
{
    let w = weight(31);
    assert(GROUP_ORDER@[0] == 0x30);
    assert(0x30 * w >= w) by (nonlinear_arith)
        requires
            w >= 0,
    ;
}

/// One more digit in front: the tail of a string from `k` on is the byte at
/// `k` at its weight, and the tail after it.
proof fn lemma_tail_step(bytes: Seq<u8>, k: int)
    requires
        0 <= k < bytes.len(),
    ensures
        be_value(bytes.skip(k)) == bytes[k] as nat * weight((bytes.len() - 1 - k) as nat)
            + be_value(bytes.skip(k + 1)),
{
    assert(bytes.skip(k).drop_first() =~= bytes.skip(k + 1));
}

/// Whether all 32 bytes are zero.
pub fn is_zero(bytes: &[u8; 32]) -> (zero: bool)
    ensures
        zero == (be_value(bytes@) == 0),
{
    let mut i: usize = 0;
    while i < 32
        invariant
            i <= 32,
            forall|j: int| 0 <= j < i ==> bytes@[j] == 0,
        decreases 32 - i,
    {
        if bytes[i] != 0 {
            proof {
                lemma_be_value_zero(bytes@);
            }
            return false;
        }
        i += 1;
    }
    proof {
        lemma_be_value_zero(bytes@);
    }
    true
}

/// The additive inverse of a base field element, where `y` writes one.
pub fn negate_coordinate(y: &[u8; 32]) -> (negated: Option<[u8; 32]>)
    ensures
        match negated {
            Some(bytes) => negated_coordinate(y@) == Some(bytes@),
            None => negated_coordinate(y@).is_none(),
        },
{
    let mut out: [u8; 32] = [0u8; 32];
    let mut borrow: u16 = 0;
    let mut k: usize = 32;
    proof {
        assert(out@.skip(32) =~= Seq::<u8>::empty());
        assert(y@.skip(32) =~= Seq::<u8>::empty());
        assert(FIELD_MODULUS@.skip(32) =~= Seq::<u8>::empty());
    }
    while k > 0
        invariant
            k <= 32,
            borrow <= 1,
            be_value(out@.skip(k as int)) + be_value(y@.skip(k as int)) == be_value(
                FIELD_MODULUS@.skip(k as int),
            ) + borrow * weight((32 - k) as nat),
        decreases k,
    {
        let ghost before = out@;
        let ghost old_borrow = borrow as nat;
        k -= 1;
        let top: u16 = FIELD_MODULUS[k] as u16;
        let low: u16 = y[k] as u16 + borrow;
        if top >= low {
            out[k] = (top - low) as u8;
            borrow = 0;
        } else {
            out[k] = (top + 256 - low) as u8;
            borrow = 1;
        }
        proof {
            let w = weight((31 - k) as nat);
            lemma_tail_step(out@, k as int);
            lemma_tail_step(y@, k as int);
            lemma_tail_step(FIELD_MODULUS@, k as int);
            assert(out@.skip(k + 1) =~= before.skip(k + 1));
            let d = out@[k as int] as nat;
            let yk = y@[k as int] as nat;
            let pk = FIELD_MODULUS@[k as int] as nat;
            let b = borrow as nat;
            assert(d + yk + old_borrow == pk + 256 * b);
            assert(d * w + yk * w + old_borrow * w == pk * w + b * (256 * w)) by (nonlinear_arith)
                requires
                    d + yk + old_borrow == pk + 256 * b,
            ;
        }
    }
    proof {
        assert(out@.skip(0) =~= out@);
        assert(y@.skip(0) =~= y@);
        assert(FIELD_MODULUS@.skip(0) =~= FIELD_MODULUS@);
        lemma_be_value_bound(out@);
        lemma_be_value_bound(y@);
        lemma_be_value_bound(FIELD_MODULUS@);
    }
    if borrow == 1 {
        return None;
    }
    if is_zero(y) {
        let zero: [u8; 32] = [0u8; 32];
        proof {
            lemma_be_value_zero(zero@);
            lemma_be_bytes_of_value(zero@);
            lemma_modulus_positive();
        }
        return Some(zero);
    }
    if is_zero(&out) {
        return None;
    }
    proof {
        lemma_be_bytes_of_value(out@);
    }
    Some(out)
}

/// The modulus is not zero.
pub proof fn lemma_modulus_positive()
    ensures
        field_modulus() > 0,
{
    lemma_be_value_zero(FIELD_MODULUS@);
    assert(FIELD_MODULUS@[0] == 0x30);
}

} // verus!
