//! Lowercase hexadecimal text of bytes and of field elements.

use vstd::prelude::*;
use vstd::string::StringExecFns;
use crate::event::ContractAddress;
use crate::felt::{be_value, field_prime, lemma_be_value_injective, FieldElement};
use crate::text::{is_plain, is_plain_char};

verus! {

/// The sixteen hexadecimal digits in lower case.
pub open spec fn hex_digits() -> Seq<char> {
    seq!['0', '1', '2', '3', '4', '5', '6', '7', '8', '9', 'a', 'b', 'c', 'd', 'e', 'f']
}

/// The character at position `i` of the hexadecimal text of `bytes`: the high
/// half of a byte at even positions, the low half at odd ones.
pub open spec fn hex_char_at(bytes: Seq<u8>, i: int) -> char {
    let b = bytes[i / 2] as int;
    hex_digits()[if i % 2 == 0 { b / 16 } else { b % 16 }]
}

/// Two lowercase hexadecimal digits for each byte, in order.
pub open spec fn lower_hex(bytes: Seq<u8>) -> Seq<char> {
    Seq::new(2 * bytes.len(), |i: int| hex_char_at(bytes, i))
}

/// `0x` followed by the hexadecimal digits of `bytes`; no digit is dropped.
pub open spec fn hex_text(bytes: Seq<u8>) -> Seq<char> {
    seq!['0', 'x'] + lower_hex(bytes)
}

/// The digit for a value below sixteen.
fn hex_digit(n: u8) -> (c: char)
    requires
        n < 16,
    ensures
        c == hex_digits()[n as int],
{
    match n {
        0 => '0',
        1 => '1',
        2 => '2',
        3 => '3',
        4 => '4',
        5 => '5',
        6 => '6',
        7 => '7',
        8 => '8',
        9 => '9',
        10 => 'a',
        11 => 'b',
        12 => 'c',
        13 => 'd',
        14 => 'e',
        _ => 'f',
    }
}

/// Appends the hexadecimal digits of `bytes` to `out`.
pub fn push_lower_hex(out: &mut String, bytes: &[u8])
    ensures
        final(out)@ == old(out)@ + lower_hex(bytes@),
{
    let ghost start = out@;
    let mut i: usize = 0;
    while i < bytes.len()
        invariant
            i <= bytes.len(),
            out@ == start + lower_hex(bytes@.take(i as int)),
        decreases bytes.len() - i,
    {
        let b = bytes[i];
        out.push(hex_digit(b / 16));
        out.push(hex_digit(b % 16));
        i += 1;
        assert(out@ =~= start + lower_hex(bytes@.take(i as int)));
    }
    assert(bytes@.take(i as int) =~= bytes@);
}

/// Calls `substreams::Hex::to_string`: two lowercase hexadecimal digits for
/// each byte, in order, with nothing before or after them.
#[verifier::external_body]
fn hex_encode(bytes: &[u8]) -> (text: String)
    ensures
        text@ == lower_hex(bytes@),
{
    substreams::Hex(bytes).to_string()
}

/// Renders the hash of a transaction as `0x` and 64 lowercase hexadecimal
/// digits.
pub fn render_transaction_hash(hash: &[u8; 32]) -> (text: String)
    ensures
        text@ == hex_text(hash@),
        text@.len() == 66,
{
    let mut text = String::new();
    text.push('0');
    text.push('x');
    let digits = hex_encode(hash.as_slice());
    text.append(digits.as_str());
    assert(text@ =~= hex_text(hash@));
    text
}

/// Renders a field element as `0x` and 64 lowercase hexadecimal digits, one
/// pair for each of its 32 bytes, leading zero bytes included.
pub fn render_hex(felt: &FieldElement) -> (text: String)
    ensures
        text@ == hex_text(felt@),
        text@.len() == 66,
{
    let bytes = felt.bytes();
    let mut text = String::new();
    text.push('0');
    text.push('x');
    push_lower_hex(&mut text, bytes.as_slice());
    proof {
        felt.lemma_len();
        assert(text@ =~= hex_text(felt@));
    }
    text
}

/// Renders an address as a field element is rendered.
pub fn render_address(address: &ContractAddress) -> (text: String)
    ensures
        text@ == hex_text(address.0@),
        text@.len() == 66,
{
    render_hex(&address.0)
}

/// Every character of hexadecimal text is a digit or a letter from `a` to `f`.
pub proof fn lemma_lower_hex_chars(bytes: Seq<u8>)
    ensures
        lower_hex(bytes).len() == 2 * bytes.len(),
        forall|i: int|
            0 <= i < 2 * bytes.len() ==> {
                let c = #[trigger] lower_hex(bytes)[i];
                ('0' <= c <= '9') || ('a' <= c <= 'f')
            },
        is_plain(lower_hex(bytes)),
        is_plain(hex_text(bytes)),
{
    assert forall|i: int| 0 <= i < 2 * bytes.len() implies {
        let c = #[trigger] lower_hex(bytes)[i];
        (('0' <= c <= '9') || ('a' <= c <= 'f')) && is_plain_char(c)
    } by {
        let b = bytes[i / 2] as int;
        let n = if i % 2 == 0 { b / 16 } else { b % 16 };
        assert(0 <= n < 16);
        assert(lower_hex(bytes)[i] == hex_digits()[n]);
    }
    assert forall|i: int| 0 <= i < hex_text(bytes).len() implies is_plain_char(
        #[trigger] hex_text(bytes)[i],
    ) by {
        if i >= 2 {
            assert(hex_text(bytes)[i] == lower_hex(bytes)[i - 2]);
        }
    }
}

/// Decoding 32 bytes that denote a number below the field prime, and
/// rendering the element, gives `0x` and the 64 lowercase hexadecimal digits
/// of those bytes, in their order.
pub proof fn law_hex_round_trip(bytes: Seq<u8>, felt: FieldElement)
    requires
        bytes.len() == 32,
        be_value(bytes) < field_prime(),
        felt.value() == be_value(bytes) % field_prime(),
    ensures
        hex_text(felt@) == seq!['0', 'x'] + lower_hex(bytes),
        hex_text(felt@).len() == 66,
        forall|i: int|
            0 <= i < 64 ==> {
                let c = #[trigger] lower_hex(bytes)[i];
                ('0' <= c <= '9') || ('a' <= c <= 'f')
            },
{
    felt.lemma_len();
    lemma_be_value_injective(felt@, bytes);
    lemma_lower_hex_chars(bytes);
}

/// Different byte strings have different hexadecimal texts.
pub proof fn lemma_lower_hex_injective(a: Seq<u8>, b: Seq<u8>)
    requires
        lower_hex(a) == lower_hex(b),
    ensures
        a == b,
{
    let digits = hex_digits();
    assert forall|x: int, y: int| 0 <= x < 16 && 0 <= y < 16 && digits[x] == digits[y] implies x
        == y by {}
    assert(lower_hex(a).len() == 2 * a.len());
    assert(lower_hex(b).len() == 2 * b.len());
    assert forall|i: int| 0 <= i < a.len() implies a[i] == b[i] by {
        assert(lower_hex(a)[2 * i] == hex_char_at(a, 2 * i));
        assert(lower_hex(b)[2 * i] == hex_char_at(b, 2 * i));
        assert(lower_hex(a)[2 * i + 1] == hex_char_at(a, 2 * i + 1));
        assert(lower_hex(b)[2 * i + 1] == hex_char_at(b, 2 * i + 1));
        let x = a[i] as int;
        let y = b[i] as int;
        assert(x / 16 == y / 16);
        assert(x % 16 == y % 16);
    }
    assert(a =~= b);
}

} // verus!
