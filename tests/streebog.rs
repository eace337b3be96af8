use streebog_gost::block::add;
use streebog_gost::hex::parse_bytes;
use streebog_gost::streebog::{hash_256, hash_512};

const MSG: [u8; 63] = [
    0x32u8, 0x31, 0x30, 0x39, 0x38, 0x37, 0x36, 0x35, 0x34, 0x33, 0x32, 0x31, 0x30, 0x39, 0x38,
    0x37, 0x36, 0x35, 0x34, 0x33, 0x32, 0x31, 0x30, 0x39, 0x38, 0x37, 0x36, 0x35, 0x34, 0x33,
    0x32, 0x31, 0x30, 0x39, 0x38, 0x37, 0x36, 0x35, 0x34, 0x33, 0x32, 0x31, 0x30, 0x39, 0x38,
    0x37, 0x36, 0x35, 0x34, 0x33, 0x32, 0x31, 0x30, 0x39, 0x38, 0x37, 0x36, 0x35, 0x34, 0x33,
    0x32, 0x31, 0x30,
];

fn hex(s: &str) -> Vec<u8> {
    parse_bytes(s).unwrap()
}

#[test]
fn byte_parser_test() {
    let message = "fbe2e5f0eee3c820fbeafaebef20fffbf0e1e0f0f520e0ed20e8ece0ebe5f0f2f120fff0eeec20f120faf2fee5e2202ce8f6f3ede220e8e6eee1e8f0f2d1202ce8f0f2e5e220e5d1";
    let bytes = parse_bytes(message).unwrap();
    assert_eq!((bytes[0], bytes[1]), (0xfb, 0xe2));
}

#[test]
fn parse_bytes_reads_whole_string() {
    assert_eq!(parse_bytes("fbe2e5f0").unwrap(), vec![0xfb, 0xe2, 0xe5, 0xf0]);
    assert_eq!(parse_bytes("00FFa0").unwrap(), vec![0x00, 0xff, 0xa0]);
    assert_eq!(parse_bytes("").unwrap(), Vec::<u8>::new());
}

#[test]
fn parse_bytes_rejects_malformed_input() {
    assert!(parse_bytes("abc").is_none());
    assert!(parse_bytes("0g").is_none());
    assert!(parse_bytes("0x12").is_none());
    assert!(parse_bytes(" 12").is_none());
}

#[test]
fn hasher() {
    let hash_actual = hash_512(&MSG);

    let hash_expected = [
        0x48u8, 0x6F, 0x64, 0xC1, 0x91, 0x78, 0x79, 0x41, 0x7F, 0xEF, 0x08, 0x2B, 0x33, 0x81,
        0xA4, 0xE2, 0x11, 0xC3, 0x24, 0xF0, 0x74, 0x65, 0x4C, 0x38, 0x82, 0x3A, 0x7B, 0x76,
        0xF8, 0x30, 0xAD, 0x00, 0xFA, 0x1F, 0xBA, 0xE4, 0x2B, 0x12, 0x85, 0xC0, 0x35, 0x2F,
        0x22, 0x75, 0x24, 0xBC, 0x9A, 0xB1, 0x62, 0x54, 0x28, 0x8D, 0xD6, 0x86, 0x3D, 0xCC,
        0xD5, 0xB9, 0xF5, 0x4A, 0x1A, 0xD0, 0x54, 0x1B,
    ];

    assert_eq!(hash_actual, hash_expected);
}

#[test]
fn hash_256_of_test_vector() {
    let expected = hex("00557be5e584fd52a449b16b0251d05d27f94ab76cbaa6da890b59d8ef1e159d");
    assert_eq!(hash_256(&MSG).to_vec(), expected);
}

#[test]
fn hash_512_of_empty_message() {
    let expected = hex("8a1a1c4cbf909f8ecb81cd1b5c713abad26a4cac2a5fda3ce86e352855712f36a7f0be98eb6cf51553b507b73a87e97946aebc29859255049f86aa09a25d948e");
    assert_eq!(hash_512(&[]).to_vec(), expected);
}

#[test]
fn hash_256_of_empty_message() {
    let expected = hex("bbe19c8d2025d99f943a932a0b365a822aa36a4c479d22cc02c8973e219a533f");
    assert_eq!(hash_256(&[]).to_vec(), expected);
}

#[test]
fn hash_512_of_two_block_message() {
    let message = hex("fbe2e5f0eee3c820fbeafaebef20fffbf0e1e0f0f520e0ed20e8ece0ebe5f0f2f120fff0eeec20f120faf2fee5e2202ce8f6f3ede220e8e6eee1e8f0f2d1202ce8f0f2e5e220e5d1");
    let expected = hex("28fbc9bada033b1460642bdcddb90c3fb3e56c497ccd0f62b8a2ad4935e85f037613966de4ee00531ae60f3b5a47f8dae06915d5f2f194996fcabf2622e6881e");
    assert_eq!(message.len(), 72);
    assert_eq!(hash_512(&message).to_vec(), expected);
}

#[test]
fn hash_512_of_exact_blocks() {
    let one: Vec<u8> = (0u8..64).collect();
    let two: Vec<u8> = (0u8..128).collect();
    assert_eq!(
        hash_512(&one).to_vec(),
        hex("fb4180219f507b8f4bf55ebf964e3cfd8062aa8723c1b8783c5469b61ee9d4e6c5c2fb9d784c66f3aaaa07b1266b70748e6d907756281c7d28391b837b7ce0b9")
    );
    assert_eq!(
        hash_512(&two).to_vec(),
        hex("5e5d103104da869d8ec3a665c57ddf54f252d533523439caece3cf1166cd6755ef3750248a6fa4d640cc80986fc4f4fa05905193912cb585d431c761fa059d6b")
    );
}

#[test]
fn digests_have_fixed_lengths_and_differ() {
    for len in [0usize, 1, 63, 64, 65, 200] {
        let message = vec![0x5au8; len];
        let long = hash_512(&message);
        let short = hash_256(&message);
        assert_eq!(long.len(), 64);
        assert_eq!(short.len(), 32);
        assert_ne!(long[..32].to_vec(), short.to_vec());
    }
}

#[test]
fn digest_is_deterministic() {
    let first = hash_512(&MSG);
    let copy = MSG.to_vec();
    assert_eq!(first, hash_512(&copy));
}

#[test]
fn block_add_carries_toward_first_byte() {
    let mut one = [0u8; 64];
    one[63] = 1;
    let mut low = [0u8; 64];
    low[63] = 0xff;
    let sum = add(low, one);
    let mut expected = [0u8; 64];
    expected[62] = 1;
    assert_eq!(sum, expected);
}

#[test]
fn block_add_wraps_modulo_2_512() {
    let mut one = [0u8; 64];
    one[63] = 1;
    assert_eq!(add([0xffu8; 64], one), [0u8; 64]);
}
