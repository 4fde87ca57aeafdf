use dwldutil::{DLHashType, DLHashes};

const SHA1_HELLO: &str = "aaf4c61ddcc5e8a2dabede0f3b482cd9aea9434d";
const SHA224_HELLO: &str = "ea09ae9cc6768c50fcee903ed054556e5bfc8347907f12598aa24193";
const SHA256_HELLO: &str = "2cf24dba5fb0a30e26e83b2ac5b9e29e1b161e5c1fa7425e73043362938b9824";
const SHA384_HELLO: &str = "59e1748777448c69de6b800d7a33bbfb9ff1b463e44354c3553bcdb9c666fa90125a3c79f90397bdf5f6a13de828684f";
const SHA512_HELLO: &str = "9b71d224bd62f3785d96d46ad3ea3d73319bfbc2890caadae2dff72519673ca72323c3d99ba5c11d7c7acc6e14b8c5da0c4663475c2e5c3adef46f73bcdec043";

#[test]
fn compute_each_algorithm() {
    let data = b"hello";
    assert_eq!(DLHashType::SHA1.compute(data), SHA1_HELLO);
    assert_eq!(DLHashType::SHA224.compute(data), SHA224_HELLO);
    assert_eq!(DLHashType::SHA256.compute(data), SHA256_HELLO);
    assert_eq!(DLHashType::SHA384.compute(data), SHA384_HELLO);
    assert_eq!(DLHashType::SHA512.compute(data), SHA512_HELLO);
}

#[test]
fn compute_empty_and_abc() {
    assert_eq!(DLHashType::SHA1.compute(b""), "da39a3ee5e6b4b0d3255bfef95601890afd80709");
    assert_eq!(
        DLHashType::SHA256.compute(b"abc"),
        "ba7816bf8f01cfea414140de5dae2223b00361a396177a9cb410ff61f20015ad"
    );
}

#[test]
fn type_verify_data_and_str() {
    assert!(DLHashType::SHA1.verify_data(b"hello", SHA1_HELLO));
    assert!(!DLHashType::SHA1.verify_data(b"hellO", SHA1_HELLO));
    assert!(DLHashType::SHA256.verify_str("hello", SHA256_HELLO));
    assert!(!DLHashType::SHA256.verify_str("hello", SHA1_HELLO));
    assert!(!DLHashType::SHA1.verify_data(b"hello", &SHA1_HELLO.to_uppercase()));
    assert!(DLHashType::matches_digest(&"ab12".to_string(), "ab12"));
    assert!(!DLHashType::matches_digest(&"ab12".to_string(), "AB12"));
}

#[test]
fn builders_append_in_order() {
    let h = DLHashes::new()
        .sha1("a")
        .sha256("b")
        .sha384("c")
        .sha512("d")
        .sha224("e")
        .add_hash(DLHashType::SHA1, "f".to_string());
    assert_eq!(h.len(), 6);
    assert_eq!(h.hashes[0], (DLHashType::SHA1, "a".to_string()));
    assert_eq!(h.hashes[1], (DLHashType::SHA256, "b".to_string()));
    assert_eq!(h.hashes[2], (DLHashType::SHA384, "c".to_string()));
    assert_eq!(h.hashes[3], (DLHashType::SHA512, "d".to_string()));
    assert_eq!(h.hashes[4], (DLHashType::SHA224, "e".to_string()));
    assert_eq!(h.hashes[5], (DLHashType::SHA1, "f".to_string()));
}

#[test]
fn either_hash_suffices() {
    let wrong = "0000000000000000000000000000000000000000";
    let second_matches = DLHashes::new().sha1(wrong).sha256(SHA256_HELLO);
    assert!(second_matches.verify_data(b"hello"));
    let first_matches = DLHashes::new().sha1(SHA1_HELLO).sha256("00");
    assert!(first_matches.verify_data(b"hello"));
    assert!(first_matches.verify_str("hello"));
    let neither = DLHashes::new().sha1(wrong).sha512("00");
    assert!(!neither.verify_data(b"hello"));
}

#[test]
fn empty_list_accepts_anything() {
    assert!(DLHashes::new().verify_data(b"whatever"));
    assert!(DLHashes::new().verify_str(""));
}

#[test]
fn verify_digests_policy() {
    let h = DLHashes::new().sha1("aa").sha256("bb");
    assert!(h.verify_digests(&vec!["xx".to_string(), "bb".to_string()]));
    assert!(h.verify_digests(&vec!["aa".to_string(), "xx".to_string()]));
    assert!(!h.verify_digests(&vec!["bb".to_string(), "aa".to_string()]));
    assert!(DLHashes::new().verify_digests(&vec![]));
}

#[test]
fn digest_is_not_the_input() {
    let d = DLHashType::SHA256.compute(b"abc");
    assert_eq!(d.len(), 64);
    assert_ne!(d.as_bytes(), b"abc");
    assert!(d.chars().all(|c| c.is_ascii_hexdigit() && !c.is_ascii_uppercase()));
}
