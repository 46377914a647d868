use zk_census::bn254::{
    g1_add, g1_mul, g1_negate, is_identity_word, pairing_check, point_from_output,
};
use zk_census::field::{is_zero, negate_coordinate, FIELD_MODULUS};

fn hex(text: &str) -> Vec<u8> {
    let digits: Vec<u8> = text
        .bytes()
        .map(|c| match c {
            b'0'..=b'9' => c - b'0',
            b'a'..=b'f' => c - b'a' + 10,
            _ => panic!("not a hex digit"),
        })
        .collect();
    digits.chunks(2).map(|pair| pair[0] * 16 + pair[1]).collect()
}

fn word(text: &str) -> [u8; 32] {
    let mut out = [0u8; 32];
    out.copy_from_slice(&hex(text));
    out
}

fn point(x: &str, y: &str) -> [u8; 64] {
    let mut out = [0u8; 64];
    out[..32].copy_from_slice(&hex(x));
    out[32..].copy_from_slice(&hex(y));
    out
}

fn small(value: u8) -> [u8; 32] {
    let mut out = [0u8; 32];
    out[31] = value;
    out
}

fn generator() -> [u8; 64] {
    let mut out = [0u8; 64];
    out[31] = 1;
    out[63] = 2;
    out
}

fn generator_g2() -> Vec<u8> {
    hex(concat_g2())
}

fn concat_g2() -> &'static str {
    "198e9393920d483a7260bfb731fb5d25f1aa493335a9e71297e485b7aef312c2\
1800deef121f1e76426a00665e5c4479674322d4f75edadd46debd5cd992f6ed\
090689d0585ff075ec9e99ad690c3395bc4b313370b38ef355acdadcd122975b\
12c85ea5db8c6deb4aab71808dcb408fe3d1e7690c43d37b4ce6cc0166fa7daa"
}

fn twice_generator() -> [u8; 64] {
    point(
        "030644e72e131a029b85045b68181585d97816a916871ca8d3c208c16d87cfd3",
        "15ed738c0e0a7c92e7845f96b2ae9c0a68a6a449e3538fc7ff3ebf7a5a18a2c4",
    )
}

#[test]
fn modulus_is_the_base_field_of_the_curve() {
    assert_eq!(
        FIELD_MODULUS.to_vec(),
        hex("30644e72e131a029b85045b68181585d97816a916871ca8d3c208c16d87cfd47")
    );
}

#[test]
fn is_zero_looks_at_every_byte() {
    assert!(is_zero(&[0u8; 32]));
    assert!(!is_zero(&small(1)));
    let mut top = [0u8; 32];
    top[0] = 1;
    assert!(!is_zero(&top));
}

#[test]
fn negating_zero_gives_zero() {
    assert_eq!(negate_coordinate(&[0u8; 32]), Some([0u8; 32]));
}

#[test]
fn negating_small_numbers_borrows_through_the_bytes() {
    assert_eq!(
        negate_coordinate(&small(1)),
        Some(word("30644e72e131a029b85045b68181585d97816a916871ca8d3c208c16d87cfd46"))
    );
    assert_eq!(
        negate_coordinate(&small(2)),
        Some(word("30644e72e131a029b85045b68181585d97816a916871ca8d3c208c16d87cfd45"))
    );
    assert_eq!(
        negate_coordinate(&small(0x48)),
        Some(word("30644e72e131a029b85045b68181585d97816a916871ca8d3c208c16d87cfcff"))
    );
    assert_eq!(
        negate_coordinate(&word(
            "0000000000000000000000000000000000000000000000000000000000fd4800"
        )),
        Some(word("30644e72e131a029b85045b68181585d97816a916871ca8d3c208c16d77fb547"))
    );
}

#[test]
fn negating_twice_gives_the_number_back() {
    let y = word("15ed738c0e0a7c92e7845f96b2ae9c0a68a6a449e3538fc7ff3ebf7a5a18a2c4");
    let once = negate_coordinate(&y).unwrap();
    assert_eq!(
        once,
        word("1a76dae6d3272396d0cbe61fced2bc532edac647851e3ac53ce1cc9c7e645a83")
    );
    assert_eq!(negate_coordinate(&once), Some(y));
    assert_eq!(
        negate_coordinate(&word(
            "30644e72e131a029b85045b68181585d97816a916871ca8d3c208c16d87cfd46"
        )),
        Some(small(1))
    );
}

#[test]
fn what_is_not_below_the_modulus_has_no_opposite() {
    assert_eq!(negate_coordinate(&FIELD_MODULUS), None);
    assert_eq!(
        negate_coordinate(&word(
            "30644e72e131a029b85045b68181585d97816a916871ca8d3c208c16d87cfd48"
        )),
        None
    );
    assert_eq!(negate_coordinate(&[0xffu8; 32]), None);
    assert_eq!(
        negate_coordinate(&word(
            "30644e72e131a029b85045b68181585d97816a916871ca8d3c208c16d87cfe00"
        )),
        None
    );
}

#[test]
fn adding_the_generator_to_itself_doubles_it() {
    assert_eq!(g1_add(&generator(), &generator()), Some(twice_generator()));
}

#[test]
fn adding_the_neutral_point_changes_nothing() {
    assert_eq!(g1_add(&generator(), &[0u8; 64]), Some(generator()));
    assert_eq!(g1_add(&[0u8; 64], &twice_generator()), Some(twice_generator()));
}

#[test]
fn adding_a_point_off_the_curve_gives_nothing() {
    let mut off = generator();
    off[63] = 3;
    assert_eq!(g1_add(&off, &generator()), None);
    assert_eq!(g1_add(&generator(), &off), None);
    assert_eq!(g1_add(&[0xffu8; 64], &generator()), None);
}

#[test]
fn multiplying_the_generator_by_small_scalars() {
    assert_eq!(g1_mul(&generator(), &small(0)), Some([0u8; 64]));
    assert_eq!(g1_mul(&generator(), &small(1)), Some(generator()));
    assert_eq!(g1_mul(&generator(), &small(2)), Some(twice_generator()));
    assert_eq!(
        g1_mul(&generator(), &small(3)),
        Some(point(
            "0769bf9ac56bea3ff40232bcb1b6bd159315d84715b8e679f2d355961915abf0",
            "2ab799bee0489429554fdb7c8d086475319e63b40b9c5b57cdf1ff3dd9fe2261",
        ))
    );
    assert_eq!(
        g1_mul(&generator(), &small(5)),
        Some(point(
            "17c139df0efee0f766bc0204762b774362e4ded88953a39ce849a8a7fa163fa9",
            "01e0559bacb160664764a357af8a9fe70baa9258e0b959273ffc5718c6d4cc7c",
        ))
    );
}

#[test]
fn multiplying_a_point_off_the_curve_gives_nothing() {
    let mut off = generator();
    off[31] = 2;
    assert_eq!(g1_mul(&off, &small(2)), None);
}

#[test]
fn the_opposite_of_the_generator_cancels_it() {
    let opposite = g1_negate(&generator()).unwrap();
    assert_eq!(
        opposite,
        point(
            "0000000000000000000000000000000000000000000000000000000000000001",
            "30644e72e131a029b85045b68181585d97816a916871ca8d3c208c16d87cfd45",
        )
    );
    assert_eq!(g1_add(&generator(), &opposite), Some([0u8; 64]));
    assert_eq!(g1_negate(&opposite), Some(generator()));
}

#[test]
fn the_neutral_point_is_its_own_opposite() {
    assert_eq!(g1_negate(&[0u8; 64]), Some([0u8; 64]));
}

#[test]
fn a_point_with_an_oversized_coordinate_has_no_opposite() {
    let mut bad = generator();
    bad[32..].copy_from_slice(&FIELD_MODULUS);
    assert_eq!(g1_negate(&bad), None);
}

#[test]
fn a_pairing_and_its_opposite_cancel() {
    let mut pairs = Vec::new();
    pairs.extend_from_slice(&generator());
    pairs.extend_from_slice(&generator_g2());
    pairs.extend_from_slice(&g1_negate(&generator()).unwrap());
    pairs.extend_from_slice(&generator_g2());
    assert!(pairing_check(&pairs));
}

#[test]
fn a_single_pairing_of_generators_is_not_the_identity() {
    let mut pairs = Vec::new();
    pairs.extend_from_slice(&generator());
    pairs.extend_from_slice(&generator_g2());
    assert!(!pairing_check(&pairs));
    pairs.extend_from_slice(&generator());
    pairs.extend_from_slice(&generator_g2());
    assert!(!pairing_check(&pairs));
}

#[test]
fn a_pairing_with_a_bad_point_does_not_hold() {
    let mut pairs = Vec::new();
    pairs.extend_from_slice(&generator());
    let mut g2 = generator_g2();
    g2[127] ^= 1;
    pairs.extend_from_slice(&g2);
    pairs.extend_from_slice(&g1_negate(&generator()).unwrap());
    pairs.extend_from_slice(&g2);
    assert!(!pairing_check(&pairs));
}

#[test]
fn the_identity_word_is_one_in_32_bytes() {
    assert!(is_identity_word(&Some(small(1).to_vec())));
    assert!(!is_identity_word(&Some(small(0).to_vec())));
    assert!(!is_identity_word(&Some(small(2).to_vec())));
    assert!(!is_identity_word(&Some(vec![1u8])));
    assert!(!is_identity_word(&Some(vec![])));
    let mut high = small(1);
    high[0] = 1;
    assert!(!is_identity_word(&Some(high.to_vec())));
    let mut long = small(1).to_vec();
    long.push(0);
    assert!(!is_identity_word(&Some(long)));
    assert!(!is_identity_word(&None));
}

#[test]
fn only_64_bytes_are_read_as_a_point() {
    assert_eq!(point_from_output(Some(generator().to_vec())), Some(generator()));
    assert_eq!(point_from_output(Some(vec![0u8; 63])), None);
    assert_eq!(point_from_output(Some(vec![0u8; 65])), None);
    assert_eq!(point_from_output(Some(vec![])), None);
    assert_eq!(point_from_output(None), None);
}

#[test]
fn group_order_is_the_order_of_the_curve() {
    assert_eq!(
        zk_census::field::GROUP_ORDER.to_vec(),
        hex("30644e72e131a029b85045b68181585d2833e84879b9709143e1f593f0000001")
    );
    // The generator taken as often as the order says is the neutral point.
    assert_eq!(g1_mul(&generator(), &zk_census::field::GROUP_ORDER), Some([0u8; 64]));
}
