//! The text forms of identifiers and of raw bytes.

use base64::Engine;
use vstd::arithmetic::div_mod::lemma_fundamental_div_mod_converse;
use vstd::prelude::*;

verus! {

/// The lower-case hexadecimal digit for a number below sixteen.
pub open spec fn hex_digit(n: int) -> char {
    if n < 10 {
        (48 + n) as char
    } else {
        (87 + n) as char
    }
}

/// The hexadecimal digit of `id` in place `k`, where place 0 is the most significant of the
/// thirty-two.
pub open spec fn nibble(id: u128, k: int) -> int {
    ((id >> ((124 - 4 * k) as u128)) & 0xf) as int
}

/// Which of the thirty-two digits stands at position `i` of the hyphenated form, for a position
/// that holds a digit.
pub open spec fn digit_place(i: int) -> int {
    if i < 8 {
        i
    } else if i < 13 {
        i - 1
    } else if i < 18 {
        i - 2
    } else if i < 23 {
        i - 3
    } else {
        i - 4
    }
}

/// The text of an identifier: its thirty-two hexadecimal digits in groups of eight, four, four,
/// four and twelve, with a hyphen between neighbouring groups.
pub open spec fn hyphenated(id: u128) -> Seq<char> {
    Seq::new(
        36,
        |i: int|
            if i == 8 || i == 13 || i == 18 || i == 23 {
                '-'
            } else {
                hex_digit(nibble(id, digit_place(i)))
            },
    )
}

/// The text of an identifier.
///
/// Trusted: `uuid::Uuid::from_u128` and the `Display` impl of `uuid::Uuid` behind `to_string`.
/// The contract claims that the text is the lower-case hyphenated form of the number, most
/// significant digit first.
#[verifier::external_body]
pub(crate) fn id_text(id: u128) -> (text: String)
    ensures
        text@ == hyphenated(id),
{
    uuid::Uuid::from_u128(id).to_string()
}

/// The digit of the standard base64 alphabet for a number below sixty-four.
pub open spec fn base64_digit(n: int) -> char {
    if n < 26 {
        (65 + n) as char
    } else if n < 52 {
        (71 + n) as char
    } else if n < 62 {
        (n - 4) as char
    } else if n == 62 {
        '+'
    } else {
        '/'
    }
}

/// The byte at position `k`, and zero past the end.
pub open spec fn byte_or_zero(bytes: Seq<u8>, k: int) -> int {
    if 0 <= k < bytes.len() {
        bytes[k] as int
    } else {
        0
    }
}

/// The six bits from bit `6 * i` on, counted from the most significant bit of the first byte.
pub open spec fn sextet(bytes: Seq<u8>, i: int) -> int {
    let pair = byte_or_zero(bytes, 6 * i / 8) * 256 + byte_or_zero(bytes, 6 * i / 8 + 1);
    if i % 4 == 0 {
        pair / 1024
    } else if i % 4 == 1 {
        pair / 16 % 64
    } else if i % 4 == 2 {
        pair / 64 % 64
    } else {
        pair / 256 % 64
    }
}

/// Standard base64 without padding: one digit for every six bits, the last filled up with zeros.
pub open spec fn base64_unpadded(bytes: Seq<u8>) -> Seq<char> {
    Seq::new(((8 * bytes.len() + 5) / 6) as nat, |i: int| base64_digit(sextet(bytes, i)))
}

/// Standard base64: the digits, then as many `=` as bring the length to a multiple of four.
pub open spec fn base64_padded(bytes: Seq<u8>) -> Seq<char> {
    base64_unpadded(bytes) + Seq::new(((3 - bytes.len() % 3) % 3) as nat, |i: int| '=')
}

/// Bytes as base64 text.
///
/// Trusted: `base64::Engine::encode` of the engine `base64::engine::general_purpose::STANDARD`.
/// The contract claims that the text is the standard base64 form of the bytes, with padding. The
/// call panics where the text would be longer than an allocation can be.
#[verifier::external_body]
pub(crate) fn base64_text(bytes: &[u8]) -> (text: String)
    requires
        4 * ((bytes@.len() + 2) / 3) <= isize::MAX,
    ensures
        text@ == base64_padded(bytes@),
{
    base64::engine::general_purpose::STANDARD.encode(bytes)
}

/// Two numbers with the same leading `count` digits agree in what these digits say.
proof fn leading_digits(left: u128, right: u128, count: int)
    requires
        1 <= count <= 32,
        forall|k: int| 0 <= k < count ==> #[trigger] nibble(left, k) == nibble(right, k),
    ensures
        left >> ((128 - 4 * count) as u128) == right >> ((128 - 4 * count) as u128),
    decreases count,
{
    let shift: u128 = (128 - 4 * count) as u128;
    assert(nibble(left, count - 1) == nibble(right, count - 1));
    if count == 1 {
        assert((left >> 124u128) & 0xf == left >> 124u128) by (bit_vector);
        assert((right >> 124u128) & 0xf == right >> 124u128) by (bit_vector);
    } else {
        leading_digits(left, right, count - 1);
        let higher: u128 = (shift + 4) as u128;
        assert(left >> shift == ((left >> higher) << 4) | ((left >> shift) & 0xf)) by (bit_vector)
            requires
                higher == shift + 4,
                shift <= 120,
        ;
        assert(right >> shift == ((right >> higher) << 4) | ((right >> shift) & 0xf)) by (bit_vector)
            requires
                higher == shift + 4,
                shift <= 120,
        ;
    }
}

/// Different identifiers have different texts.
pub proof fn hyphenated_is_injective(left: u128, right: u128)
    requires
        hyphenated(left) == hyphenated(right),
    ensures
        left == right,
{
    assert forall|k: int| 0 <= k < 32 implies #[trigger] nibble(left, k) == nibble(right, k) by {
        let i: int = if k < 8 {
            k
        } else if k < 12 {
            k + 1
        } else if k < 16 {
            k + 2
        } else if k < 20 {
            k + 3
        } else {
            k + 4
        };
        assert(digit_place(i) == k);
        assert(hyphenated(left)[i] == hex_digit(nibble(left, k)));
        assert(hyphenated(right)[i] == hex_digit(nibble(right, k)));
        let l = left >> ((124 - 4 * k) as u128);
        let r = right >> ((124 - 4 * k) as u128);
        assert(l & 0xf < 16) by (bit_vector);
        assert(r & 0xf < 16) by (bit_vector);
    }
    leading_digits(left, right, 32);
    assert(left >> 0u128 == left) by (bit_vector);
    assert(right >> 0u128 == right) by (bit_vector);
}

/// Six bits are a number below sixty-four.
pub proof fn sextet_range(bytes: Seq<u8>, i: int)
    requires
        0 <= i,
    ensures
        0 <= sextet(bytes, i) < 64,
{
}

/// Different numbers below sixty-four have different digits, and none of them is `=`.
pub proof fn base64_digits_differ(left: int, right: int)
    requires
        0 <= left < 64,
        0 <= right < 64,
    ensures
        base64_digit(left) == base64_digit(right) ==> left == right,
        base64_digit(left) != '=',
{
}

/// The six-bit numbers of two neighbouring bytes, from the bits of either byte.
proof fn sextets_of_pair(first: int, second: int)
    requires
        0 <= first < 256,
        0 <= second < 256,
    ensures
        (first * 256 + second) / 1024 == first / 4,
        (first * 256 + second) / 16 % 64 == first % 4 * 16 + second / 16,
        (first * 256 + second) / 64 % 64 == first % 16 * 4 + second / 64,
        (first * 256 + second) / 256 % 64 == first % 64,
{
    let pair = first * 256 + second;
    byte_parts(first);
    byte_parts(second);
    lemma_fundamental_div_mod_converse(pair, 1024, first / 4, first % 4 * 256 + second);
    lemma_fundamental_div_mod_converse(pair, 16, first * 16 + second / 16, second % 16);
    lemma_fundamental_div_mod_converse(
        first * 16 + second / 16,
        64,
        first / 4,
        first % 4 * 16 + second / 16,
    );
    lemma_fundamental_div_mod_converse(pair, 64, first * 4 + second / 64, second % 64);
    lemma_fundamental_div_mod_converse(
        first * 4 + second / 64,
        64,
        first / 16,
        first % 16 * 4 + second / 64,
    );
    lemma_fundamental_div_mod_converse(pair, 256, first, second);
}

/// The six-bit numbers of the three bytes from position `3 * q` on.
proof fn sextets_of_group(bytes: Seq<u8>, q: int)
    requires
        0 <= q,
    ensures
        sextet(bytes, 4 * q) == byte_or_zero(bytes, 3 * q) / 4,
        sextet(bytes, 4 * q + 1) == byte_or_zero(bytes, 3 * q) % 4 * 16 + byte_or_zero(
            bytes,
            3 * q + 1,
        ) / 16,
        sextet(bytes, 4 * q + 2) == byte_or_zero(bytes, 3 * q + 1) % 16 * 4 + byte_or_zero(
            bytes,
            3 * q + 2,
        ) / 64,
        sextet(bytes, 4 * q + 3) == byte_or_zero(bytes, 3 * q + 2) % 64,
{
    assert(6 * (4 * q) / 8 == 3 * q);
    assert(6 * (4 * q + 1) / 8 == 3 * q);
    assert(6 * (4 * q + 2) / 8 == 3 * q + 1);
    assert(6 * (4 * q + 3) / 8 == 3 * q + 2);
    let first = byte_or_zero(bytes, 3 * q);
    let second = byte_or_zero(bytes, 3 * q + 1);
    let third = byte_or_zero(bytes, 3 * q + 2);
    let fourth = byte_or_zero(bytes, 3 * q + 3);
    sextets_of_pair(first, second);
    sextets_of_pair(second, third);
    sextets_of_pair(third, fourth);
}

/// A byte is the bits above and the bits below any point in it.
proof fn byte_parts(byte: int)
    requires
        0 <= byte < 256,
    ensures
        byte == byte / 4 * 4 + byte % 4,
        byte == byte / 16 * 16 + byte % 16,
        byte == byte / 64 * 64 + byte % 64,
{
}

/// Bytes with the same six-bit numbers from position `4 * q` on, as far as there are any, agree in
/// the three bytes from position `3 * q` on.
proof fn same_sextets_same_bytes(left: Seq<u8>, right: Seq<u8>, q: int)
    requires
        0 <= q,
        left.len() == right.len(),
        forall|i: int|
            4 * q <= i < 4 * q + 4 && 6 * i < 8 * left.len() ==> #[trigger] sextet(left, i)
                == sextet(right, i),
    ensures
        forall|k: int| 3 * q <= k < 3 * q + 3 && k < left.len() ==> left[k] == right[k],
{
    sextets_of_group(left, q);
    sextets_of_group(right, q);
    if 3 * q < left.len() {
        byte_parts(byte_or_zero(left, 3 * q));
        byte_parts(byte_or_zero(right, 3 * q));
        assert(sextet(left, 4 * q) == sextet(right, 4 * q));
        assert(sextet(left, 4 * q + 1) == sextet(right, 4 * q + 1));
        assert(left[3 * q] == right[3 * q]);
    }
    if 3 * q + 1 < left.len() {
        byte_parts(byte_or_zero(left, 3 * q + 1));
        byte_parts(byte_or_zero(right, 3 * q + 1));
        assert(sextet(left, 4 * q + 2) == sextet(right, 4 * q + 2));
        assert(left[3 * q + 1] == right[3 * q + 1]);
    }
    if 3 * q + 2 < left.len() {
        byte_parts(byte_or_zero(left, 3 * q + 2));
        byte_parts(byte_or_zero(right, 3 * q + 2));
        assert(sextet(left, 4 * q + 3) == sextet(right, 4 * q + 3));
        assert(left[3 * q + 2] == right[3 * q + 2]);
    }
}

/// Different bytes have different base64 texts.
pub proof fn base64_is_injective(left: Seq<u8>, right: Seq<u8>)
    requires
        base64_padded(left) == base64_padded(right),
    ensures
        left == right,
{
    base64_length(left, right);
    base64_length(right, left);
    assert forall|i: int| 0 <= i < base64_unpadded(left).len() implies #[trigger] sextet(left, i)
        == sextet(right, i) by {
        assert(base64_padded(left)[i] == base64_digit(sextet(left, i)));
        assert(base64_padded(right)[i] == base64_digit(sextet(right, i)));
        sextet_range(left, i);
        sextet_range(right, i);
        base64_digits_differ(sextet(left, i), sextet(right, i));
    }
    assert forall|k: int| 0 <= k < left.len() implies left[k] == right[k] by {
        same_sextets_same_bytes(left, right, k / 3);
    }
}

/// Bytes that share a base64 text with others are not fewer than those.
proof fn base64_length(left: Seq<u8>, right: Seq<u8>)
    requires
        base64_padded(left) == base64_padded(right),
    ensures
        left.len() >= right.len(),
{
    if left.len() < right.len() {
        let at = base64_unpadded(left).len() as int;
        assert(base64_padded(left).len() == base64_padded(right).len());
        assert(at < base64_unpadded(right).len());
        assert(base64_padded(left)[at] == '=');
        assert(base64_padded(right)[at] == base64_digit(sextet(right, at)));
        sextet_range(right, at);
        base64_digits_differ(sextet(right, at), 0);
    }
}

/// The digits are those of the two alphabets, in their order.
pub proof fn digits_follow_their_alphabets(n: int)
    ensures
        0 <= n < 16 ==> hex_digit(n) == "0123456789abcdef"@[n],
        0 <= n < 64 ==> base64_digit(n)
            == "ABCDEFGHIJKLMNOPQRSTUVWXYZabcdefghijklmnopqrstuvwxyz0123456789+/"@[n],
{
    reveal_strlit("0123456789abcdef");
    reveal_strlit("ABCDEFGHIJKLMNOPQRSTUVWXYZabcdefghijklmnopqrstuvwxyz0123456789+/");
}

/// Three bytes and the four digits that stand for them are the same number, in base 256 and in base
/// 64, the most significant first. Past the end of the bytes there are zeros.
pub proof fn digits_are_the_number(bytes: Seq<u8>, q: int)
    requires
        0 <= q,
    ensures
        byte_or_zero(bytes, 3 * q) * 65536 + byte_or_zero(bytes, 3 * q + 1) * 256 + byte_or_zero(
            bytes,
            3 * q + 2,
        ) == sextet(bytes, 4 * q) * 262144 + sextet(bytes, 4 * q + 1) * 4096 + sextet(
            bytes,
            4 * q + 2,
        ) * 64 + sextet(bytes, 4 * q + 3),
{
    sextets_of_group(bytes, q);
    byte_parts(byte_or_zero(bytes, 3 * q));
    byte_parts(byte_or_zero(bytes, 3 * q + 1));
    byte_parts(byte_or_zero(bytes, 3 * q + 2));
}

/// The base64 text of bytes is four characters for every three bytes begun, and ends in as many `=`
/// as bytes are missing from the last three.
pub proof fn base64_comes_in_fours(bytes: Seq<u8>)
    ensures
        base64_padded(bytes).len() == 4 * ((bytes.len() + 2) / 3),
        forall|i: int|
            0 <= i < base64_padded(bytes).len() ==> (#[trigger] base64_padded(bytes)[i] == '='
                <==> 6 * i >= 8 * bytes.len()),
{
    assert forall|i: int| 0 <= i < base64_padded(bytes).len() implies (
    #[trigger] base64_padded(bytes)[i] == '=' <==> 6 * i >= 8 * bytes.len()) by {
        sextet_range(bytes, i);
        base64_digits_differ(sextet(bytes, i), 0);
    }
}

/// The number that a text of hexadecimal digits stands for, whatever else stands between them.
pub open spec fn read_hex(text: Seq<char>) -> int
    decreases text.len(),
{
    if text.len() == 0 {
        0
    } else {
        let before = read_hex(text.drop_last());
        let last = text.last();
        if '0' <= last <= '9' {
            16 * before + (last as int - '0' as int)
        } else if 'a' <= last <= 'f' {
            16 * before + (last as int - 'a' as int + 10)
        } else {
            before
        }
    }
}

/// How many digits stand before position `i` of the hyphenated form.
spec fn digits_before(i: int) -> int {
    if i <= 8 {
        i
    } else if i <= 13 {
        i - 1
    } else if i <= 18 {
        i - 2
    } else if i <= 23 {
        i - 3
    } else {
        i - 4
    }
}

/// The start of the hyphenated form stands for the leading digits of the number.
proof fn start_of_hyphenated(id: u128, i: int)
    requires
        0 <= i <= 36,
    ensures
        i == 0 ==> read_hex(hyphenated(id).take(i)) == 0,
        i > 0 ==> read_hex(hyphenated(id).take(i)) == id >> ((128 - 4 * digits_before(i)) as u128),
    decreases i,
{
    if i > 0 {
        let text = hyphenated(id);
        start_of_hyphenated(id, i - 1);
        assert(text.take(i).drop_last() =~= text.take(i - 1));
        assert(text.take(i).last() == text[i - 1]);
        if i - 1 != 8 && i - 1 != 13 && i - 1 != 18 && i - 1 != 23 {
            let shift: u128 = (128 - 4 * digits_before(i)) as u128;
            assert(digit_place(i - 1) == digits_before(i) - 1);
            assert(nibble(id, digit_place(i - 1)) == (id >> shift) & 0xf);
            assert((id >> shift) & 0xf < 16) by (bit_vector);
            if i == 1 {
                assert((id >> 124u128) & 0xf == id >> 124u128) by (bit_vector);
            } else {
                let higher: u128 = (shift + 4) as u128;
                assert(id >> shift == 16 * (id >> higher) + ((id >> shift) & 0xf)) by (bit_vector)
                    requires
                        higher == shift + 4,
                        shift <= 120,
                ;
            }
        }
    }
}

/// The text of an identifier has hyphens after the eighth, the twelfth, the sixteenth and the
/// twentieth digit and nowhere else, and read as a hexadecimal number it is the identifier.
pub proof fn hyphenated_reads_back(id: u128)
    ensures
        hyphenated(id).len() == 36,
        forall|i: int|
            0 <= i < 36 ==> (#[trigger] hyphenated(id)[i] == '-' <==> (i == 8 || i == 13 || i == 18
                || i == 23)),
        read_hex(hyphenated(id)) == id,
{
    start_of_hyphenated(id, 36);
    assert(hyphenated(id).take(36) =~= hyphenated(id));
    assert(id >> 0u128 == id) by (bit_vector);
    assert forall|i: int| 0 <= i < 36 implies (#[trigger] hyphenated(id)[i] == '-' <==> (i == 8 || i
        == 13 || i == 18 || i == 23)) by {
        let shift: u128 = (124 - 4 * digit_place(i)) as u128;
        assert((id >> shift) & 0xf < 16) by (bit_vector);
    }
}

} // verus!
