use tee_worker::hashing::{blake2_256, content_hash, h256_to_bytes, hash_from_slice, H256};
use tee_worker::mortality::{era_mortal, try_mortality, Era};
use tee_worker::primitives::BlockRef;

#[test]
fn digest_of_the_empty_string_matches_the_reference_vector() {
    // Blake2b with a 256-bit output over no input.
    let expected: Vec<u8> = vec![
        0x0e, 0x57, 0x51, 0xc0, 0x26, 0xe5, 0x43, 0xb2, 0xe8, 0xab, 0x2e, 0xb0, 0x60, 0x99,
        0xda, 0xa1, 0xd1, 0xe5, 0xdf, 0x47, 0x77, 0x8f, 0x77, 0x87, 0xfa, 0xab, 0x45, 0xcd,
        0xf1, 0x2f, 0xe3, 0xa8,
    ];
    assert_eq!(blake2_256(&[]), expected);
}

#[test]
fn digests_depend_on_the_input() {
    let a = blake2_256(b"confidential");
    let b = blake2_256(b"confidentiaL");
    assert_eq!(a.len(), 32);
    assert_ne!(a, b);
    assert_eq!(a, blake2_256(b"confidential"));
    // The digest is not the input handed back.
    let zeroes = [0u8; 32];
    assert_ne!(blake2_256(&zeroes), zeroes.to_vec());
}

#[test]
fn a_hash_round_trips_through_its_bytes() {
    let h = content_hash(b"some block");
    let bytes = h256_to_bytes(&h);
    assert_eq!(bytes.len(), 32);
    assert_eq!(hash_from_slice(bytes.as_slice()), h);
    assert_eq!(h, hash_from_slice(blake2_256(b"some block").as_slice()));
}

#[test]
fn mortality_is_anchored_at_the_latest_header() {
    let anchor = BlockRef { number: 1000, hash: H256 { w0: 5, w1: 0, w2: 0, w3: 0 } };
    let mortality = try_mortality(64, Some(anchor));
    assert_eq!(mortality.era, Era::Mortal(64, 40));
    assert_eq!(mortality.mortality_checkpoint, Some(anchor.hash));

    let immortal = try_mortality(64, None);
    assert_eq!(immortal.era, Era::Immortal);
    assert_eq!(immortal.mortality_checkpoint, None);
}

#[test]
fn the_validity_period_is_clamped_and_quantized() {
    // Short lifetimes round up to the floor of 4.
    assert_eq!(era_mortal(3, 10), Era::Mortal(4, 2));
    // Long lifetimes cap at 65536, and the phase falls on a coarse boundary.
    assert_eq!(era_mortal(100000, 70000), Era::Mortal(65536, 4464));
}
