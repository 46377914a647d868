use vstd::prelude::*;
use solana_program::alt_bn128::AltBn128Error;
use crate::field::{negate_coordinate, negated_coordinate};

verus! {

/// Bytes of a point of the first group: two field elements.
pub const G1_BYTES: usize = 64;

/// Bytes of a point of the second group: two elements of the extension field.
pub const G2_BYTES: usize = 128;

/// Bytes of a scalar.
pub const SCALAR_BYTES: usize = 32;

/// Bytes of the word that a pairing check answers with.
pub const WORD_BYTES: usize = 32;

/// What the curve library's `alt_bn128_addition` answers for an input: the
/// bytes it returns, or nothing where it reports an error.
pub uninterp spec fn alt_bn128_addition_output(input: Seq<u8>) -> Option<Seq<u8>>;

/// What the curve library's `alt_bn128_multiplication` answers for an input:
/// the bytes it returns, or nothing where it reports an error.
pub uninterp spec fn alt_bn128_multiplication_output(input: Seq<u8>) -> Option<Seq<u8>>;

/// What the curve library's `alt_bn128_pairing` answers for an input: the
/// bytes it returns, or nothing where it reports an error.
pub uninterp spec fn alt_bn128_pairing_output(input: Seq<u8>) -> Option<Seq<u8>>;

/// The error of the curve library. Nothing is read from it.
#[verifier::external_type_specification]
#[verifier::external_body]
pub struct ExAltBn128Error(solana_program::alt_bn128::AltBn128Error);

/// Calls `solana_program::alt_bn128::prelude::alt_bn128_addition`. Trusted:
/// whether it answers, and with which bytes, depends on the input bytes
/// alone. Nothing is claimed of what the bytes are.
#[verifier::external_body]
fn group_addition(input: &[u8]) -> (output: Result<Vec<u8>, AltBn128Error>)
    ensures
        match output {
            Ok(bytes) => alt_bn128_addition_output(input@) == Some(bytes@),
            Err(_) => alt_bn128_addition_output(input@).is_none(),
        },
{
    solana_program::alt_bn128::prelude::alt_bn128_addition(input)
}

/// Calls `solana_program::alt_bn128::prelude::alt_bn128_multiplication`.
/// Trusted: whether it answers, and with which bytes, depends on the input
/// bytes alone. Nothing is claimed of what the bytes are.
#[verifier::external_body]
fn group_multiplication(input: &[u8]) -> (output: Result<Vec<u8>, AltBn128Error>)
    ensures
        match output {
            Ok(bytes) => alt_bn128_multiplication_output(input@) == Some(bytes@),
            Err(_) => alt_bn128_multiplication_output(input@).is_none(),
        },
{
    solana_program::alt_bn128::prelude::alt_bn128_multiplication(input)
}

/// Calls `solana_program::alt_bn128::prelude::alt_bn128_pairing`. Trusted:
/// whether it answers, and with which bytes, depends on the input bytes
/// alone. Nothing is claimed of what the bytes are.
#[verifier::external_body]
fn group_pairing(input: &[u8]) -> (output: Result<Vec<u8>, AltBn128Error>)
    ensures
        match output {
            Ok(bytes) => alt_bn128_pairing_output(input@) == Some(bytes@),
            Err(_) => alt_bn128_pairing_output(input@).is_none(),
        },
{
    solana_program::alt_bn128::prelude::alt_bn128_pairing(input)
}

/// What the curve library answered, if it did: its errors all mean that
/// there is no answer.
fn answer(output: Result<Vec<u8>, AltBn128Error>) -> (bytes: Option<Vec<u8>>)
    ensures
        match output {
            Ok(answered) => bytes == Some(answered),
            Err(_) => bytes.is_none(),
        },
{
    match output {
        Ok(answered) => Some(answered),
        Err(_) => None,
    }
}

/// The bytes of a point that may be missing.
pub open spec fn point_bytes(point: Option<[u8; 64]>) -> Option<Seq<u8>> {
    match point {
        Some(bytes) => Some(bytes@),
        None => None,
    }
}

/// An answer of the curve library read as a point of the first group: it is
/// one where there is an answer of 64 bytes.
pub open spec fn as_point(output: Option<Seq<u8>>) -> Option<Seq<u8>> {
    if output.is_some() && output.unwrap().len() == G1_BYTES {
        output
    } else {
        None
    }
}

/// The word that says that a product of pairings is the identity: the number
/// one in 32 bytes, most significant first.
pub open spec fn identity_word() -> Seq<u8> {
    Seq::new(WORD_BYTES as nat, |i: int| if i == WORD_BYTES - 1 { 1u8 } else { 0u8 })
}

/// The sum of two points of the first group.
pub open spec fn g1_sum(left: Seq<u8>, right: Seq<u8>) -> Option<Seq<u8>> {
    as_point(alt_bn128_addition_output(left + right))
}

/// A point of the first group taken `scalar` times.
pub open spec fn g1_product(point: Seq<u8>, scalar: Seq<u8>) -> Option<Seq<u8>> {
    as_point(alt_bn128_multiplication_output(point + scalar))
}

/// Whether the product of the pairings of a row of pairs, each a point of the
/// first group and then one of the second, is the identity.
pub open spec fn pairing_holds(pairs: Seq<u8>) -> bool {
    alt_bn128_pairing_output(pairs) == Some(identity_word())
}

/// The opposite of a point of the first group: the same first coordinate, and
/// the additive inverse of the second. A second coordinate that writes no
/// field element has none.
pub open spec fn g1_opposite(point: Seq<u8>) -> Option<Seq<u8>> {
    match negated_coordinate(point.subrange(32, 64)) {
        Some(y) => Some(point.subrange(0, 32) + y),
        None => None,
    }
}

/// Reads an answer of the curve library as a point of the first group.
pub fn point_from_output(output: Option<Vec<u8>>) -> (point: Option<[u8; 64]>)
    ensures
        match output {
            Some(bytes) => point_bytes(point) == as_point(Some(bytes@)),
            None => point.is_none(),
        },
{
    match output {
        Some(bytes) => {
            if bytes.len() != G1_BYTES {
                return None;
            }
            let mut point: [u8; 64] = [0u8; 64];
            let mut i: usize = 0;
            while i < G1_BYTES
                invariant
                    i <= G1_BYTES,
                    bytes@.len() == G1_BYTES,
                    forall|j: int| 0 <= j < i ==> point@[j] == bytes@[j],
                decreases G1_BYTES - i,
            {
                point[i] = bytes[i];
                i += 1;
            }
            assert(point@ =~= bytes@);
            Some(point)
        },
        None => None,
    }
}

/// Whether the bytes are the word for the identity.
fn is_one_word(bytes: &Vec<u8>) -> (one: bool)
    ensures
        one == (bytes@ == identity_word()),
{
    if bytes.len() != WORD_BYTES {
        return false;
    }
    let mut i: usize = 0;
    while i < WORD_BYTES
        invariant
            i <= WORD_BYTES,
            bytes@.len() == WORD_BYTES,
            forall|j: int| 0 <= j < i ==> bytes@[j] == identity_word()[j],
        decreases WORD_BYTES - i,
    {
        let expected: u8 = if i == WORD_BYTES - 1 { 1 } else { 0 };
        if bytes[i] != expected {
            assert(identity_word()[i as int] == expected);
            return false;
        }
        i += 1;
    }
    assert(bytes@ =~= identity_word());
    true
}

/// Whether an answer of the curve library is the word for the identity.
pub fn is_identity_word(output: &Option<Vec<u8>>) -> (identity: bool)
    ensures
        identity == match output {
            Some(bytes) => bytes@ == identity_word(),
            None => false,
        },
{
    match output {
        Some(bytes) => is_one_word(bytes),
        None => false,
    }
}

/// Adds two points of the first group. There is no sum where the curve
/// library turns an operand down.
pub fn g1_add(left: &[u8; 64], right: &[u8; 64]) -> (sum: Option<[u8; 64]>)
    ensures
        point_bytes(sum) == g1_sum(left@, right@),
{
    let mut input: Vec<u8> = Vec::new();
    input.extend_from_slice(left.as_slice());
    input.extend_from_slice(right.as_slice());
    assert(input@ =~= left@ + right@);
    point_from_output(answer(group_addition(input.as_slice())))
}

/// Takes a point of the first group `scalar` times, the scalar written most
/// significant byte first. There is no product where the curve library turns
/// the point down.
pub fn g1_mul(point: &[u8; 64], scalar: &[u8; 32]) -> (product: Option<[u8; 64]>)
    ensures
        point_bytes(product) == g1_product(point@, scalar@),
{
    let mut input: Vec<u8> = Vec::new();
    input.extend_from_slice(point.as_slice());
    input.extend_from_slice(scalar.as_slice());
    assert(input@ =~= point@ + scalar@);
    point_from_output(answer(group_multiplication(input.as_slice())))
}

/// Checks whether the product of the pairings of a row of pairs is the
/// identity. It is not where the curve library turns a point down.
pub fn pairing_check(pairs: &[u8]) -> (holds: bool)
    ensures
        holds == pairing_holds(pairs@),
{
    let output = answer(group_pairing(pairs));
    is_identity_word(&output)
}

/// The opposite of a point of the first group.
pub fn g1_negate(point: &[u8; 64]) -> (opposite: Option<[u8; 64]>)
    ensures
        point_bytes(opposite) == g1_opposite(point@),
{
    let mut y: [u8; 32] = [0u8; 32];
    let mut i: usize = 0;
    while i < 32
        invariant
            i <= 32,
            forall|j: int| 0 <= j < i ==> y@[j] == point@[32 + j],
        decreases 32 - i,
    {
        y[i] = point[32 + i];
        i += 1;
    }
    assert(y@ =~= point@.subrange(32, 64));
    match negate_coordinate(&y) {
        Some(negated) => {
            let mut opposite: [u8; 64] = *point;
            let mut j: usize = 0;
            while j < 32
                invariant
                    j <= 32,
                    forall|a: int| 0 <= a < 32 ==> opposite@[a] == point@[a],
                    forall|a: int| 0 <= a < j ==> opposite@[32 + a] == negated@[a],
                decreases 32 - j,
            {
                opposite[32 + j] = negated[j];
                j += 1;
            }
            assert(opposite@ =~= point@.subrange(0, 32) + negated@);
            Some(opposite)
        },
        None => None,
    }
}

} // verus!
