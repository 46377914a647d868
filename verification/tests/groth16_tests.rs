use zk_census::bn254::{g1_add, g1_mul};
use zk_census::errors::CensusError;
use zk_census::groth16::{prepare_inputs, public_inputs, verify, PublicSignals, VerifyingKey};
use zk_census::utils::verify_groth16_proof;

fn hex(text: &str) -> Vec<u8> {
    let digits: Vec<u8> = text
        .bytes()
        .map(|c| match c {
            b'0'..=b'9' => c - b'0',
            b'a'..=b'f' => c - b'a' + 10,
            _ => panic!("not a hex digit"),
        })
        .collect();
    digits.chunks(2).map(|pair| pair[0] * 16 + pair[1]).collect()
}

fn small(value: u8) -> [u8; 32] {
    let mut out = [0u8; 32];
    out[31] = value;
    out
}

fn generator() -> [u8; 64] {
    let mut out = [0u8; 64];
    out[31] = 1;
    out[63] = 2;
    out
}

fn generator_g2() -> [u8; 128] {
    let mut out = [0u8; 128];
    out.copy_from_slice(&hex(
        "198e9393920d483a7260bfb731fb5d25f1aa493335a9e71297e485b7aef312c2\
1800deef121f1e76426a00665e5c4479674322d4f75edadd46debd5cd992f6ed\
090689d0585ff075ec9e99ad690c3395bc4b313370b38ef355acdadcd122975b\
12c85ea5db8c6deb4aab71808dcb408fe3d1e7690c43d37b4ce6cc0166fa7daa",
    ));
    out
}

/// A key whose points of the second group are all the generator, so that a
/// proof can be made without a prover: A is then alpha plus the statement's
/// combination plus C.
fn test_key() -> VerifyingKey {
    let mut ic = [[0u8; 64]; 7];
    for i in 0..7 {
        ic[i] = g1_mul(&generator(), &small(2 + i as u8)).unwrap();
    }
    VerifyingKey {
        alpha_g1: g1_mul(&generator(), &small(11)).unwrap(),
        beta_g2: generator_g2(),
        gamma_g2: generator_g2(),
        delta_g2: generator_g2(),
        ic,
    }
}

fn make_proof(vk: &VerifyingKey, signals: &PublicSignals) -> Vec<u8> {
    let inputs = prepare_inputs(vk, signals).unwrap();
    let c = g1_mul(&generator(), &small(5)).unwrap();
    let a = g1_add(&g1_add(&vk.alpha_g1, &inputs).unwrap(), &c).unwrap();
    let mut proof = Vec::new();
    proof.extend_from_slice(&a);
    proof.extend_from_slice(&generator_g2());
    proof.extend_from_slice(&c);
    proof
}

fn statement() -> PublicSignals {
    let mut nullifier = [0u8; 32];
    for i in 0..32 {
        nullifier[i] = 0xa0 + i as u8;
    }
    PublicSignals { nullifier, age_bracket: 1, continent: 2, census_commitment: [0x5au8; 32] }
}

#[test]
fn statement_is_written_in_six_scalars() {
    let inputs = public_inputs(&statement());
    assert_eq!(inputs.len(), 6);
    assert_eq!(
        inputs[0].to_vec(),
        hex("00000000000000000000000000000000a0a1a2a3a4a5a6a7a8a9aaabacadaeaf")
    );
    assert_eq!(
        inputs[1].to_vec(),
        hex("00000000000000000000000000000000b0b1b2b3b4b5b6b7b8b9babbbcbdbebf")
    );
    assert_eq!(inputs[2], small(1));
    assert_eq!(inputs[3], small(2));
    assert_eq!(
        inputs[4].to_vec(),
        hex("000000000000000000000000000000005a5a5a5a5a5a5a5a5a5a5a5a5a5a5a5a")
    );
    assert_eq!(inputs[5], inputs[4]);
}

#[test]
fn prepared_inputs_are_the_weighted_sum_of_the_key_points() {
    let mut ic = [[0u8; 64]; 7];
    ic[0] = generator();
    ic[3] = generator();
    ic[4] = g1_mul(&generator(), &small(2)).unwrap();
    let vk = VerifyingKey {
        alpha_g1: generator(),
        beta_g2: generator_g2(),
        gamma_g2: generator_g2(),
        delta_g2: generator_g2(),
        ic,
    };
    let signals = PublicSignals {
        nullifier: [0xffu8; 32],
        age_bracket: 2,
        continent: 1,
        census_commitment: [0xffu8; 32],
    };
    // 1 + 2 * 1 + 1 * 2 = 5 times the generator; the other points are neutral.
    assert_eq!(prepare_inputs(&vk, &signals), g1_mul(&generator(), &small(5)));
}

#[test]
fn prepared_inputs_are_missing_for_a_key_off_the_curve() {
    let mut vk = test_key();
    vk.ic[6][0] ^= 0x01;
    assert_eq!(prepare_inputs(&vk, &statement()), None);
    let mut vk = test_key();
    vk.ic[0][63] ^= 0x01;
    assert_eq!(prepare_inputs(&vk, &statement()), None);
}

#[test]
fn a_proof_that_satisfies_the_equation_is_accepted() {
    let vk = test_key();
    let proof = make_proof(&vk, &statement());
    assert_eq!(proof.len(), 256);
    assert!(verify(&proof, &statement(), &vk));
    assert_eq!(verify_groth16_proof(&proof, &statement(), &vk), Ok(true));
}

#[test]
fn a_proof_for_another_statement_is_rejected() {
    let vk = test_key();
    let proof = make_proof(&vk, &statement());
    let mut other = statement();
    other.age_bracket = 2;
    assert_eq!(verify_groth16_proof(&proof, &other, &vk), Ok(false));
    let mut other = statement();
    other.continent = 3;
    assert_eq!(verify_groth16_proof(&proof, &other, &vk), Ok(false));
    let mut other = statement();
    other.nullifier[31] ^= 1;
    assert_eq!(verify_groth16_proof(&proof, &other, &vk), Ok(false));
    let mut other = statement();
    other.nullifier[0] ^= 1;
    assert_eq!(verify_groth16_proof(&proof, &other, &vk), Ok(false));
}

#[test]
fn a_proof_for_another_commitment_is_rejected() {
    let vk = test_key();
    let proof = make_proof(&vk, &statement());
    let mut other = statement();
    other.census_commitment[15] ^= 1;
    assert_eq!(verify_groth16_proof(&proof, &other, &vk), Ok(false));
    let mut other = statement();
    other.census_commitment[16] ^= 1;
    assert_eq!(verify_groth16_proof(&proof, &other, &vk), Ok(false));
}

#[test]
fn a_proof_with_one_byte_changed_is_rejected() {
    let vk = test_key();
    let proof = make_proof(&vk, &statement());
    for at in [0usize, 31, 63, 64, 191, 192, 255] {
        let mut changed = proof.clone();
        changed[at] ^= 0x01;
        assert_eq!(verify_groth16_proof(&changed, &statement(), &vk), Ok(false));
    }
}

#[test]
fn a_proof_with_another_point_of_the_curve_is_rejected() {
    let vk = test_key();
    let proof = make_proof(&vk, &statement());
    let mut a = [0u8; 64];
    a.copy_from_slice(&proof[..64]);
    let moved = g1_add(&a, &generator()).unwrap();
    let mut changed = proof.clone();
    changed[..64].copy_from_slice(&moved);
    assert_eq!(verify_groth16_proof(&changed, &statement(), &vk), Ok(false));
    let mut changed = proof.clone();
    changed[192..].copy_from_slice(&generator());
    assert_eq!(verify_groth16_proof(&changed, &statement(), &vk), Ok(false));
}

#[test]
fn a_proof_under_another_key_is_rejected() {
    let vk = test_key();
    let proof = make_proof(&vk, &statement());
    let mut other = test_key();
    other.alpha_g1 = generator();
    assert_eq!(verify_groth16_proof(&proof, &statement(), &other), Ok(false));
    let mut other = test_key();
    other.ic[2] = generator();
    assert_eq!(verify_groth16_proof(&proof, &statement(), &other), Ok(false));
}

#[test]
fn a_short_proof_is_malformed() {
    let vk = test_key();
    let proof = make_proof(&vk, &statement());
    assert_eq!(
        verify_groth16_proof(&proof[..255], &statement(), &vk),
        Err(CensusError::InvalidProof)
    );
    assert_eq!(verify_groth16_proof(&[], &statement(), &vk), Err(CensusError::InvalidProof));
    assert_eq!(
        verify_groth16_proof(&[0u8; 64], &statement(), &vk),
        Err(CensusError::InvalidProof)
    );
}

#[test]
fn bytes_of_the_right_length_alone_are_not_a_proof() {
    let vk = test_key();
    assert_eq!(verify_groth16_proof(&[0u8; 256], &statement(), &vk), Ok(false));
    assert_eq!(verify_groth16_proof(&[0xffu8; 256], &statement(), &vk), Ok(false));
    assert_eq!(verify_groth16_proof(&[7u8; 300], &statement(), &vk), Ok(false));
}

#[test]
fn bytes_after_the_proof_take_no_part() {
    let vk = test_key();
    let mut proof = make_proof(&vk, &statement());
    proof.extend_from_slice(&[1, 2, 3]);
    assert_eq!(verify_groth16_proof(&proof, &statement(), &vk), Ok(true));
}
