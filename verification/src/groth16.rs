use vstd::prelude::*;
use vstd::slice::slice_subrange;
use crate::bn254::{
    g1_add, g1_mul, g1_negate, g1_opposite, g1_product, g1_sum, pairing_check, pairing_holds,
    point_bytes,
};
use crate::field::{
    be_value, group_order, lemma_be_value_bound, lemma_group_order_is_large, lemma_weight_grows,
    weight,
};

verus! {

/// Bytes of a proof: a point of the first group, one of the second, and
/// another of the first.
pub const PROOF_BYTES: usize = 256;

/// The number of scalars that a statement is written in.
pub const PUBLIC_INPUTS: usize = 6;

/// What a verification key is, as mathematics.
pub struct VerifyingKeyView {
    pub alpha_g1: Seq<u8>,
    pub beta_g2: Seq<u8>,
    pub gamma_g2: Seq<u8>,
    pub delta_g2: Seq<u8>,
    pub ic: Seq<Seq<u8>>,
}

/// The public parameters that proofs are checked against.
#[derive(Clone, Debug, PartialEq, Eq)]
pub struct VerifyingKey {
    /// Alpha, in the first group.
    pub alpha_g1: [u8; 64],
    /// Beta, in the second group.
    pub beta_g2: [u8; 128],
    /// Gamma, in the second group.
    pub gamma_g2: [u8; 128],
    /// Delta, in the second group.
    pub delta_g2: [u8; 128],
    /// The points that the statement is weighed against: a constant one, and
    /// one for each scalar of the statement.
    pub ic: [[u8; 64]; 7],
}

impl View for VerifyingKey {
    type V = VerifyingKeyView;

    open spec fn view(&self) -> VerifyingKeyView {
        VerifyingKeyView {
            alpha_g1: self.alpha_g1@,
            beta_g2: self.beta_g2@,
            gamma_g2: self.gamma_g2@,
            delta_g2: self.delta_g2@,
            ic: Seq::new(self.ic@.len(), |i: int| self.ic@[i]@),
        }
    }
}

/// What a statement is, as mathematics.
pub struct PublicSignalsView {
    pub nullifier: Seq<u8>,
    pub age_bracket: u8,
    pub continent: u8,
    pub census_commitment: Seq<u8>,
}

/// The statement that a proof vouches for: this nullifier belongs to a member
/// of the committed set, of this age bracket, on this continent.
#[derive(Clone, Debug, PartialEq, Eq)]
pub struct PublicSignals {
    /// The nullifier that is being claimed.
    pub nullifier: [u8; 32],
    /// The age bracket that is being counted.
    pub age_bracket: u8,
    /// The continent that is being counted.
    pub continent: u8,
    /// The root of the membership tree of the census.
    pub census_commitment: [u8; 32],
}

impl View for PublicSignals {
    type V = PublicSignalsView;

    open spec fn view(&self) -> PublicSignalsView {
        PublicSignalsView {
            nullifier: self.nullifier@,
            age_bracket: self.age_bracket,
            continent: self.continent,
            census_commitment: self.census_commitment@,
        }
    }
}

/// Sixteen bytes as a scalar: sixteen zero bytes in front of them.
pub open spec fn half_scalar(half: Seq<u8>) -> Seq<u8> {
    Seq::new(16, |i: int| 0u8) + half
}

/// A small number as a scalar.
pub open spec fn small_scalar(value: u8) -> Seq<u8> {
    Seq::new(31, |i: int| 0u8).push(value)
}

impl PublicSignalsView {
    /// The scalars that a statement is written in: the two halves of the
    /// nullifier, the age bracket, the continent, and the two halves of the
    /// commitment.
    pub open spec fn scalars(self) -> Seq<Seq<u8>> {
        seq![
            half_scalar(self.nullifier.subrange(0, 16)),
            half_scalar(self.nullifier.subrange(16, 32)),
            small_scalar(self.age_bracket),
            small_scalar(self.continent),
            half_scalar(self.census_commitment.subrange(0, 16)),
            half_scalar(self.census_commitment.subrange(16, 32)),
        ]
    }
}

/// The constant point of a key and the first `terms` of its other points,
/// each taken as often as its scalar says, added up. There is none where the
/// curve library turns a point down.
pub open spec fn combination(ic: Seq<Seq<u8>>, scalars: Seq<Seq<u8>>, terms: nat) -> Option<
    Seq<u8>,
>
    decreases terms,
{
    if terms == 0 {
        Some(ic[0])
    } else {
        match combination(ic, scalars, (terms - 1) as nat) {
            Some(sum) => match g1_product(ic[terms as int], scalars[terms - 1]) {
                Some(term) => g1_sum(sum, term),
                None => None,
            },
            None => None,
        }
    }
}

/// Whether a proof of 256 bytes is accepted for a statement under a key: the
/// pairing of A with B equals the product of the pairings of alpha with beta,
/// of the statement's combination with gamma, and of C with delta. It is
/// checked as a product of four pairings, with the opposite of A.
pub open spec fn accepts(vk: VerifyingKeyView, proof: Seq<u8>, signals: PublicSignalsView) -> bool {
    match g1_opposite(proof.subrange(0, 64)) {
        Some(opposite) => match combination(vk.ic, signals.scalars(), PUBLIC_INPUTS as nat) {
            Some(inputs) => pairing_holds(
                opposite + proof.subrange(64, 192) + vk.alpha_g1 + vk.beta_g2 + inputs
                    + vk.gamma_g2 + proof.subrange(192, 256) + vk.delta_g2,
            ),
            None => false,
        },
        None => false,
    }
}

/// Once a combination is missing, every longer one is missing.
pub proof fn lemma_combination_missing(
    ic: Seq<Seq<u8>>,
    scalars: Seq<Seq<u8>>,
    terms: nat,
    more: nat,
)
    requires
        combination(ic, scalars, terms).is_none(),
        terms <= more,
    ensures
        combination(ic, scalars, more).is_none(),
    decreases more,
{
    if terms < more {
        lemma_combination_missing(ic, scalars, terms, (more - 1) as nat);
    }
}

/// Zero bytes in front of a byte string do not change the number it writes.
pub proof fn lemma_leading_zeros(zeros: nat, tail: Seq<u8>)
    ensures
        be_value(Seq::new(zeros, |i: int| 0u8) + tail) == be_value(tail),
    decreases zeros,
{
    let all = Seq::new(zeros, |i: int| 0u8) + tail;
    if zeros == 0 {
        assert(all =~= tail);
    } else {
        assert(all.drop_first() =~= Seq::new((zeros - 1) as nat, |i: int| 0u8) + tail);
        lemma_leading_zeros((zeros - 1) as nat, tail);
        assert(all[0] == 0u8);
        assert(0 * weight((all.len() - 1) as nat) == 0);
    }
}

/// Every scalar of a statement is 32 bytes that write a number below 256 to
/// the power 16, and so below the order of the groups.
pub proof fn law_scalars_are_small(signals: PublicSignalsView, i: int)
    requires
        signals.nullifier.len() == 32,
        signals.census_commitment.len() == 32,
        0 <= i < PUBLIC_INPUTS,
    ensures
        signals.scalars()[i].len() == 32,
        be_value(signals.scalars()[i]) < weight(16),
        be_value(signals.scalars()[i]) < group_order(),
{
    lemma_group_order_is_large();
    lemma_weight_grows(16, 31);
    if i == 2 || i == 3 {
        let value = if i == 2 {
            signals.age_bracket
        } else {
            signals.continent
        };
        assert(small_scalar(value) =~= Seq::new(31, |i: int| 0u8) + seq![value]);
        lemma_leading_zeros(31, seq![value]);
        lemma_be_value_bound(seq![value]);
        lemma_weight_grows(1, 16);
    } else {
        let half = if i == 0 {
            signals.nullifier.subrange(0, 16)
        } else if i == 1 {
            signals.nullifier.subrange(16, 32)
        } else if i == 4 {
            signals.census_commitment.subrange(0, 16)
        } else {
            signals.census_commitment.subrange(16, 32)
        };
        lemma_leading_zeros(16, half);
        lemma_be_value_bound(half);
    }
}

/// Two statements that are written in the same scalars are the same
/// statement: a proof for one statement is a proof for no other.
pub proof fn law_scalars_tell_statements_apart(left: PublicSignalsView, right: PublicSignalsView)
    requires
        left.nullifier.len() == 32,
        right.nullifier.len() == 32,
        left.census_commitment.len() == 32,
        right.census_commitment.len() == 32,
        left.scalars() == right.scalars(),
    ensures
        left == right,
{
    let a = left.scalars();
    let b = right.scalars();
    assert forall|i: int| 0 <= i < 32 implies left.nullifier[i] == right.nullifier[i] by {
        if i < 16 {
            assert(a[0][16 + i] == left.nullifier.subrange(0, 16)[i]);
            assert(b[0][16 + i] == right.nullifier.subrange(0, 16)[i]);
        } else {
            assert(a[1][i] == left.nullifier.subrange(16, 32)[i - 16]);
            assert(b[1][i] == right.nullifier.subrange(16, 32)[i - 16]);
        }
    }
    assert forall|i: int| 0 <= i < 32 implies left.census_commitment[i]
        == right.census_commitment[i] by {
        if i < 16 {
            assert(a[4][16 + i] == left.census_commitment.subrange(0, 16)[i]);
            assert(b[4][16 + i] == right.census_commitment.subrange(0, 16)[i]);
        } else {
            assert(a[5][i] == left.census_commitment.subrange(16, 32)[i - 16]);
            assert(b[5][i] == right.census_commitment.subrange(16, 32)[i - 16]);
        }
    }
    assert(left.nullifier =~= right.nullifier);
    assert(left.census_commitment =~= right.census_commitment);
    assert(a[2][31] == left.age_bracket);
    assert(b[2][31] == right.age_bracket);
    assert(a[3][31] == left.continent);
    assert(b[3][31] == right.continent);
}

/// Sixteen bytes, from `start` on, as a scalar.
fn half_as_scalar(bytes: &[u8; 32], start: usize) -> (scalar: [u8; 32])
    requires
        start == 0 || start == 16,
    ensures
        scalar@ == half_scalar(bytes@.subrange(start as int, start + 16)),
{
    let mut scalar: [u8; 32] = [0u8; 32];
    let mut i: usize = 0;
    while i < 16
        invariant
            i <= 16,
            start == 0 || start == 16,
            forall|j: int| 0 <= j < 16 ==> scalar@[j] == 0,
            forall|j: int| 16 <= j < 16 + i ==> #[trigger] scalar@[j] == bytes@[start + j - 16],
        decreases 16 - i,
    {
        scalar[16 + i] = bytes[start + i];
        i += 1;
    }
    assert(scalar@ =~= half_scalar(bytes@.subrange(start as int, start + 16)));
    scalar
}

/// A small number as a scalar.
fn number_as_scalar(value: u8) -> (scalar: [u8; 32])
    ensures
        scalar@ == small_scalar(value),
{
    let mut scalar: [u8; 32] = [0u8; 32];
    scalar[31] = value;
    assert(scalar@ =~= small_scalar(value));
    scalar
}

/// Writes a statement in scalars.
pub fn public_inputs(signals: &PublicSignals) -> (inputs: Vec<[u8; 32]>)
    ensures
        inputs@.len() == PUBLIC_INPUTS,
        forall|i: int| 0 <= i < PUBLIC_INPUTS ==> (#[trigger] inputs@[i])@ == signals@.scalars()[i],
{
    let mut inputs: Vec<[u8; 32]> = Vec::new();
    inputs.push(half_as_scalar(&signals.nullifier, 0));
    inputs.push(half_as_scalar(&signals.nullifier, 16));
    inputs.push(number_as_scalar(signals.age_bracket));
    inputs.push(number_as_scalar(signals.continent));
    inputs.push(half_as_scalar(&signals.census_commitment, 0));
    inputs.push(half_as_scalar(&signals.census_commitment, 16));
    inputs
}

/// Weighs a statement against a key: the point that stands for the statement
/// in the pairing equation.
pub fn prepare_inputs(vk: &VerifyingKey, signals: &PublicSignals) -> (prepared: Option<[u8; 64]>)
    ensures
        point_bytes(prepared) == combination(vk@.ic, signals@.scalars(), PUBLIC_INPUTS as nat),
{
    let inputs = public_inputs(signals);
    let ghost ic = vk@.ic;
    let ghost scalars = signals@.scalars();
    let mut sum: [u8; 64] = vk.ic[0];
    let mut i: usize = 0;
    while i < PUBLIC_INPUTS
        invariant
            i <= PUBLIC_INPUTS,
            ic == vk@.ic,
            scalars == signals@.scalars(),
            inputs@.len() == PUBLIC_INPUTS,
            forall|j: int| 0 <= j < PUBLIC_INPUTS ==> (#[trigger] inputs@[j])@ == scalars[j],
            combination(ic, scalars, i as nat) == Some(sum@),
        decreases PUBLIC_INPUTS - i,
    {
        let point: [u8; 64] = vk.ic[i + 1];
        assert(point@ == ic[i + 1]);
        assert(inputs@[i as int]@ == scalars[i as int]);
        let term = match g1_mul(&point, &inputs[i]) {
            Some(term) => term,
            None => {
                proof {
                    lemma_combination_missing(ic, scalars, (i + 1) as nat, PUBLIC_INPUTS as nat);
                }
                return None;
            },
        };
        sum = match g1_add(&sum, &term) {
            Some(next) => next,
            None => {
                proof {
                    lemma_combination_missing(ic, scalars, (i + 1) as nat, PUBLIC_INPUTS as nat);
                }
                return None;
            },
        };
        i += 1;
    }
    Some(sum)
}

/// Checks a proof of at least 256 bytes for a statement under a key. The
/// bytes after the first 256 take no part.
pub fn verify(proof: &[u8], signals: &PublicSignals, vk: &VerifyingKey) -> (accepted: bool)
    requires
        proof@.len() >= PROOF_BYTES,
    ensures
        accepted == accepts(vk@, proof@.subrange(0, PROOF_BYTES as int), signals@),
{
    let ghost head = proof@.subrange(0, PROOF_BYTES as int);
    let mut a: [u8; 64] = [0u8; 64];
    let mut i: usize = 0;
    while i < 64
        invariant
            i <= 64,
            proof@.len() >= PROOF_BYTES,
            forall|j: int| 0 <= j < i ==> a@[j] == proof@[j],
        decreases 64 - i,
    {
        a[i] = proof[i];
        i += 1;
    }
    assert(a@ =~= head.subrange(0, 64));
    let opposite = match g1_negate(&a) {
        Some(opposite) => opposite,
        None => {
            return false;
        },
    };
    let prepared = match prepare_inputs(vk, signals) {
        Some(prepared) => prepared,
        None => {
            return false;
        },
    };
    let b = slice_subrange(proof, 64, 192);
    let c = slice_subrange(proof, 192, 256);
    assert(b@ =~= head.subrange(64, 192));
    assert(c@ =~= head.subrange(192, 256));
    let mut pairs: Vec<u8> = Vec::new();
    pairs.extend_from_slice(opposite.as_slice());
    pairs.extend_from_slice(b);
    pairs.extend_from_slice(vk.alpha_g1.as_slice());
    pairs.extend_from_slice(vk.beta_g2.as_slice());
    pairs.extend_from_slice(prepared.as_slice());
    pairs.extend_from_slice(vk.gamma_g2.as_slice());
    pairs.extend_from_slice(c);
    pairs.extend_from_slice(vk.delta_g2.as_slice());
    assert(pairs@ =~= opposite@ + b@ + vk@.alpha_g1 + vk@.beta_g2 + prepared@ + vk@.gamma_g2 + c@
        + vk@.delta_g2);
    pairing_check(pairs.as_slice())
}

} // verus!
