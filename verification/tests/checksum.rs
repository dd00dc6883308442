use client::checksum::{
    calculate_json_checksum, checksum_input, hex_encode, select_checksum_seed,
};

#[test]
fn hex_of_known_bytes() {
    assert_eq!(
        hex_encode(&vec![0x00, 0x09, 0x0a, 0x0f, 0xa5, 0xff]),
        "00090a0fa5ff"
    );
    assert_eq!(hex_encode(&vec![]), "");
}

#[test]
fn hex_tells_bytes_apart() {
    for left in 0..=255u8 {
        let text = hex_encode(&vec![left]);
        assert_eq!(text, format!("{:02x}", left));
        assert_eq!(text.len(), 2);
        assert!(text.chars().all(|c| matches!(c, '0'..='9' | 'a'..='f')));
    }
}

#[test]
fn checksum_input_surrounds_payload_with_seed() {
    assert_eq!(
        checksum_input(&b"ab".to_vec(), &b"{}".to_vec()),
        b"ab{}ab".to_vec()
    );
}

#[test]
fn checksum_of_known_payload() {
    let seed = Some(b"seed".to_vec());
    let json = br#"{"events":[]}"#.to_vec();
    assert_eq!(
        calculate_json_checksum(&json, &seed),
        Some("53e4fefbe31a4edadb137a104d48a516ec11211cc0ce9114aa9d54773790a96c".to_string())
    );
}

#[test]
fn checksum_with_empty_seed() {
    assert_eq!(
        calculate_json_checksum(&b"abc".to_vec(), &Some(vec![])),
        Some("ba7816bf8f01cfea414140de5dae2223b00361a396177a9cb410ff61f20015ad".to_string())
    );
    assert_eq!(
        calculate_json_checksum(&vec![], &Some(vec![])),
        Some("e3b0c44298fc1c149afbf4c8996fb92427ae41e4649b934ca495991b7852b855".to_string())
    );
}

#[test]
fn no_checksum_without_seed() {
    assert_eq!(calculate_json_checksum(&b"{}".to_vec(), &None), None);
}

#[test]
fn seed_that_was_built_in_comes_first() {
    let built_in = Some("built in".to_string());
    let environment = Some("environment".to_string());
    assert_eq!(
        select_checksum_seed(built_in, environment),
        Some(b"built in".to_vec())
    );
    assert_eq!(
        select_checksum_seed(None, Some("g\u{e9}".to_string())),
        Some(vec![b'g', 0xc3, 0xa9])
    );
    assert_eq!(select_checksum_seed(None, None), None);
}
