use sigv4_client::hash::{hex_encode, payload_hash};

const EMPTY_SHA256: &str = "e3b0c44298fc1c149afbf4c8996fb92427ae41e4649b934ca495991b7852b855";

#[test]
fn empty_body_has_the_well_known_digest() {
    let hash = payload_hash(&[]);
    assert_eq!(hash, EMPTY_SHA256);
    assert!(hash.starts_with("e3b0c44298fc1c149afbf4c8996fb92427ae41e4649b934ca495991b7852b85"));
}

#[test]
fn digest_of_abc() {
    assert_eq!(
        payload_hash(b"abc"),
        "ba7816bf8f01cfea414140de5dae2223b00361a396177a9cb410ff61f20015ad"
    );
}

#[test]
fn digest_of_a_published_body() {
    assert_eq!(
        payload_hash(b"Welcome to Amazon S3."),
        "44ce7dd67c959e0d3524ffac1771dfbba87d2b6b4b4e99e42034a8b803f8b072"
    );
}

#[test]
fn digest_is_sixty_four_lowercase_hex_digits() {
    for body in [&b""[..], &b"a"[..], &[0u8, 255, 17, 128][..], &[7u8; 1000][..]] {
        let hash = payload_hash(body);
        assert_eq!(hash.len(), 64);
        assert!(hash.chars().all(|c| c.is_ascii_digit() || ('a'..='f').contains(&c)));
    }
}

#[test]
fn same_bytes_same_digest_other_bytes_other_digest() {
    let body = b"{\"key\":\"value\"}".to_vec();
    assert_eq!(payload_hash(&body), payload_hash(&body.clone()));
    assert_ne!(payload_hash(&body), payload_hash(b"{\"key\":\"valuf\"}"));
    assert_ne!(payload_hash(b""), payload_hash(&[0]));
}

#[test]
fn digest_is_not_the_hex_of_the_body() {
    let body = [0xabu8; 32];
    assert_ne!(payload_hash(&body), hex_encode(&body));
}

#[test]
fn hex_encode_exact_values() {
    assert_eq!(hex_encode(&[]), "");
    assert_eq!(hex_encode(&[0x00]), "00");
    assert_eq!(hex_encode(&[0x00, 0x0f, 0xa5, 0xff]), "000fa5ff");
    assert_eq!(hex_encode(&[0x10, 0x01, 0x9a, 0xbc, 0xde]), "10019abcde");
    assert_eq!(hex_encode(b"hex"), "686578");
}

#[test]
fn hex_encode_every_byte() {
    let all: Vec<u8> = (0..=255u8).collect();
    let text = hex_encode(&all);
    assert_eq!(text.len(), 512);
    for (i, b) in all.iter().enumerate() {
        assert_eq!(&text[2 * i..2 * i + 2], format!("{:02x}", b));
    }
}
