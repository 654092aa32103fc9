use upmc::sha256::{sha256_digest, Sha256};

#[test]
fn empty_input_matches_the_known_digest() {
    assert_eq!(
        sha256_digest(b""),
        "e3b0c44298fc1c149afbf4c8996fb92427ae41e4649b934ca495991b7852b855"
    );
}

#[test]
fn abc_matches_the_known_digest() {
    assert_eq!(
        sha256_digest(b"abc"),
        "ba7816bf8f01cfea414140de5dae2223b00361a396177a9cb410ff61f20015ad"
    );
}

#[test]
fn long_input_matches_the_known_digest() {
    // NIST test vector: two-block message
    assert_eq!(
        sha256_digest(b"abcdbcdecdefdefgefghfghighijhijkijkljklmklmnlmnomnopnopq"),
        "248d6a61d20638b8e5c026930c3e6039a33ce45964ff2167f6ecedd419db06c1"
    );
}

#[test]
fn streaming_updates_equal_one_shot_hashing() {
    let data: Vec<u8> = (0u8..=255).cycle().take(1000).collect();
    let one_shot = sha256_digest(&data);
    let mut hasher = Sha256::new();
    hasher.update(&data[..10]);
    hasher.update(&data[10..100]);
    hasher.update(&data[100..]);
    assert_eq!(hasher.finalize_hex(), one_shot);
}

#[test]
fn digest_is_64_lowercase_hex_characters() {
    let d = sha256_digest(b"anything");
    assert_eq!(d.len(), 64);
    assert!(d.chars().all(|c| c.is_ascii_hexdigit() && !c.is_ascii_uppercase()));
}
