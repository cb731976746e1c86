use starknet_nft_events::decimal::{decimal_string, render_decimal, U256};
use starknet_nft_events::felt::{decode_field_element, FieldElement};
use starknet_nft_events::hex::{render_hex, render_transaction_hash};

fn word(hex: &str) -> [u8; 32] {
    assert_eq!(hex.len(), 64);
    let mut out = [0u8; 32];
    for i in 0..32 {
        out[i] = u8::from_str_radix(&hex[2 * i..2 * i + 2], 16).unwrap();
    }
    out
}

fn small(n: u128) -> FieldElement {
    let mut bytes = [0u8; 32];
    bytes[16..].copy_from_slice(&n.to_be_bytes());
    decode_field_element(&bytes)
}

#[test]
fn hex_round_trip_keeps_every_byte() {
    let text = "0123456789abcdef00112233445566778899aabbccddeeff0fedcba987654321";
    let felt = decode_field_element(&word(text));
    assert_eq!(felt.bytes(), word(text));
    assert_eq!(render_hex(&felt), format!("0x{}", text));
}

#[test]
fn hex_keeps_leading_zero_bytes() {
    let text = render_hex(&small(1));
    assert_eq!(text.len(), 66);
    assert_eq!(text, format!("0x{}01", "00".repeat(31)));
    assert_eq!(render_hex(&small(0)), format!("0x{}", "00".repeat(32)));
}

#[test]
fn hex_is_lower_case() {
    let felt = decode_field_element(&word(
        "00ABCDEFabcdef00000000000000000000000000000000000000000000FFFFFF",
    ));
    assert_eq!(
        render_hex(&felt),
        "0x00abcdefabcdef00000000000000000000000000000000000000000000ffffff"
    );
}

#[test]
fn largest_element_round_trips() {
    let text = "0800000000000011000000000000000000000000000000000000000000000000";
    assert_eq!(render_hex(&decode_field_element(&word(text))), format!("0x{}", text));
}

#[test]
fn prime_decodes_to_zero() {
    let prime = "0800000000000011000000000000000000000000000000000000000000000001";
    let felt = decode_field_element(&word(prime));
    assert_eq!(felt.bytes(), [0u8; 32]);
}

#[test]
fn all_ones_are_reduced_modulo_the_prime() {
    let felt = decode_field_element(&[0xffu8; 32]);
    assert_eq!(
        render_hex(&felt),
        "0x07fffffffffffdf0ffffffffffffffffffffffffffffffffffffffffffffffe0"
    );
}

#[test]
fn same_compares_values() {
    assert!(small(7).same(&small(7)));
    assert!(!small(7).same(&small(8)));
    assert_eq!(small(7), small(7));
}

#[test]
fn to_index_is_bounded() {
    assert_eq!(small(5).to_index(6), Some(5));
    assert_eq!(small(5).to_index(5), None);
    assert_eq!(small(0).to_index(0), None);
    assert_eq!(small(u128::MAX).to_index(usize::MAX), None);
    let big = decode_field_element(&word(
        "0100000000000000000000000000000000000000000000000000000000000000",
    ));
    assert_eq!(big.to_index(usize::MAX), None);
    assert_eq!(small(usize::MAX as u128 - 1).to_index(usize::MAX), Some(usize::MAX - 1));
}

#[test]
fn transaction_hash_is_rendered_whole() {
    assert_eq!(render_transaction_hash(&[0xaau8; 32]), format!("0x{}", "aa".repeat(32)));
    let mut hash = [0u8; 32];
    hash[31] = 0x0f;
    hash[0] = 0xf0;
    assert_eq!(render_transaction_hash(&hash), format!("0xf0{}0f", "00".repeat(30)));
}

#[test]
fn decimal_of_low_limb() {
    assert_eq!(render_decimal(&U256 { low: 0, high: 0 }), "0");
    assert_eq!(render_decimal(&U256 { low: 5, high: 0 }), "5");
    assert_eq!(render_decimal(&U256 { low: 10, high: 0 }), "10");
    assert_eq!(render_decimal(&U256 { low: 1234567890, high: 0 }), "1234567890");
    assert_eq!(
        render_decimal(&U256 { low: u128::MAX, high: 0 }),
        "340282366920938463463374607431768211455"
    );
    assert_eq!(render_decimal(&U256 { low: u128::MAX, high: 0 }), u128::MAX.to_string());
}

#[test]
fn decimal_of_two_pow_128() {
    assert_eq!(
        render_decimal(&U256 { low: 0, high: 1 }),
        "340282366920938463463374607431768211456"
    );
}

#[test]
fn decimal_of_both_limbs() {
    assert_eq!(
        render_decimal(&U256 { low: 12345678901234567890, high: 7 }),
        "2381976568446569244255967930923612048082"
    );
    assert_eq!(
        render_decimal(&U256 { low: u128::MAX, high: u128::MAX }),
        "115792089237316195423570985008687907853269984665640564039457584007913129639935"
    );
}

#[test]
fn decimal_string_of_limbs() {
    assert_eq!(decimal_string(0, 42), "42");
    assert_eq!(decimal_string(1, 1), "340282366920938463463374607431768211457");
}
