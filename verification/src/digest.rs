//! Content digests.
use vstd::prelude::*;

verus! {

/// SHA-256 digest of a byte sequence.
pub uninterp spec fn sha256(bytes: Seq<u8>) -> Seq<u8>;

/// `sha2::Sha256::digest` computes the SHA-256 digest of a byte sequence, 32
/// bytes long.
#[verifier::external_body]
pub(crate) fn digest(bytes: &[u8]) -> (hash: Vec<u8>)
    ensures
        hash@ == sha256(bytes@),
        hash@.len() == 32,
{
    <sha2::Sha256 as sha2::Digest>::digest(bytes).to_vec()
}

/// Hexadecimal digit of a value below sixteen, with small letters.
pub open spec fn hex_digit(value: int) -> char {
    if value < 10 {
        ('0' as u32 + value) as char
    } else {
        ('a' as u32 + (value - 10)) as char
    }
}

/// Two hexadecimal digits for each byte, the high half first.
pub open spec fn hex_text(bytes: Seq<u8>) -> Seq<char> {
    Seq::new(
        2 * bytes.len(),
        |i: int|
            if i % 2 == 0 {
                hex_digit(bytes[i / 2] as int / 16)
            } else {
                hex_digit(bytes[i / 2] as int % 16)
            },
    )
}

/// Hexadecimal digit of a value below sixteen.
fn hex_char(value: u8) -> (c: char)
    requires
        value < 16,
    ensures
        c == hex_digit(value as int),
{
    if value < 10 {
        (48 + value) as char
    } else {
        (87 + value) as char
    }
}

/// Render bytes as hexadecimal text.
pub fn hex_bytes(bytes: &[u8]) -> (text: String)
    ensures
        text@ == hex_text(bytes@),
{
    let mut text = String::new();
    let mut i: usize = 0;
    while i < bytes.len()
        invariant
            i <= bytes.len(),
            text@ == hex_text(bytes@.take(i as int)),
        decreases bytes.len() - i,
    {
        text.push(hex_char(bytes[i] / 16));
        text.push(hex_char(bytes[i] % 16));
        proof {
            let before = hex_text(bytes@.take(i as int));
            let after = hex_text(bytes@.take(i + 1));
            assert(after =~= before.push(after[2 * i as int]).push(after[2 * i + 1]));
        }
        i += 1;
    }
    assert(bytes@.take(i as int) =~= bytes@);
    text
}

/// Every character of a hexadecimal text is a digit or one of the letters `a`
/// to `f`.
pub proof fn law_hex_text_is_hexadecimal(bytes: Seq<u8>)
    ensures
        hex_text(bytes).len() == 2 * bytes.len(),
        forall|i: int|
            0 <= i < hex_text(bytes).len() ==> {
                let c = #[trigger] hex_text(bytes)[i];
                '0' <= c <= '9' || 'a' <= c <= 'f'
            },
{
}

/// Two byte sequences with the same hexadecimal text are equal.
pub proof fn law_hex_text_is_injective(a: Seq<u8>, b: Seq<u8>)
    requires
        hex_text(a) == hex_text(b),
    ensures
        a == b,
{
    assert(hex_text(a).len() == 2 * a.len() && hex_text(b).len() == 2 * b.len());
    assert forall|i: int| 0 <= i < a.len() implies a[i] == b[i] by {
        let high_a = hex_text(a)[2 * i];
        let low_a = hex_text(a)[2 * i + 1];
        assert(high_a == hex_text(b)[2 * i]);
        assert(low_a == hex_text(b)[2 * i + 1]);
        assert((2 * i) / 2 == i && (2 * i + 1) / 2 == i && (2 * i) % 2 == 0);
        assert(high_a == hex_digit(a[i] as int / 16));
        assert(low_a == hex_digit(a[i] as int % 16));
        assert(hex_text(b)[2 * i] == hex_digit(b[i] as int / 16));
        assert(hex_text(b)[2 * i + 1] == hex_digit(b[i] as int % 16));
        lemma_hex_digit_injective(a[i] as int / 16, b[i] as int / 16);
        lemma_hex_digit_injective(a[i] as int % 16, b[i] as int % 16);
    }
    assert(a =~= b);
}

/// Different values have different hexadecimal digits.
proof fn lemma_hex_digit_injective(x: int, y: int)
    requires
        0 <= x < 16,
        0 <= y < 16,
        hex_digit(x) == hex_digit(y),
    ensures
        x == y,
{
    assert(hex_digit(x) as u32 == if x < 10 { 48 + x } else { 87 + x });
    assert(hex_digit(y) as u32 == if y < 10 { 48 + y } else { 87 + y });
}

/// Value of a hexadecimal digit.
pub open spec fn digit_value(c: char) -> int {
    if '0' <= c <= '9' {
        c as u32 - 48
    } else {
        c as u32 - 87
    }
}

/// Bytes are written with two digits each, the high half first.
pub proof fn law_bytes_are_written_in_two_digits(bytes: &[u8], text: String)
    requires
        call_ensures(hex_bytes, (bytes,), text),
    ensures
        text@.len() == 2 * bytes@.len(),
        forall|i: int|
            #![trigger bytes@[i]]
            0 <= i < bytes@.len() ==> {
                &&& 0 <= digit_value(text@[2 * i]) < 16
                &&& 0 <= digit_value(text@[2 * i + 1]) < 16
                &&& bytes@[i] == 16 * digit_value(text@[2 * i]) + digit_value(text@[2 * i + 1])
            },
{
    assert forall|i: int| #![trigger bytes@[i]] 0 <= i < bytes@.len() implies {
        &&& 0 <= digit_value(text@[2 * i]) < 16
        &&& 0 <= digit_value(text@[2 * i + 1]) < 16
        &&& bytes@[i] == 16 * digit_value(text@[2 * i]) + digit_value(text@[2 * i + 1])
    } by {
        assert((2 * i) / 2 == i && (2 * i + 1) / 2 == i && (2 * i) % 2 == 0 && (2 * i + 1) % 2 == 1);
        let high = bytes@[i] as int / 16;
        let low = bytes@[i] as int % 16;
        assert(text@[2 * i] == hex_digit(high));
        assert(text@[2 * i + 1] == hex_digit(low));
        assert(digit_value(hex_digit(high)) == high);
        assert(digit_value(hex_digit(low)) == low);
    }
}

} // verus!
