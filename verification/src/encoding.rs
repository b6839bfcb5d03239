//! The two text encodings of key material, as mathematics.
//!
//! Both encodings read the input bytes as one string of bits, most significant
//! bit first, cut it into groups of five bits (base32) or six bits (base64),
//! and write one symbol of a fixed alphabet for each group. Bits past the end
//! of the input count as zero. Base32 is written here without padding, base64
//! with `=` padding up to a multiple of four symbols.

use vstd::prelude::*;

verus! {

/// The value of bit `position` of a byte, position 0 being the most
/// significant one.
pub open spec fn bit_weight(position: int) -> int {
    if position == 0 {
        128
    } else if position == 1 {
        64
    } else if position == 2 {
        32
    } else if position == 3 {
        16
    } else if position == 4 {
        8
    } else if position == 5 {
        4
    } else if position == 6 {
        2
    } else {
        1
    }
}

/// Bit `k` of the bit string of `data`: 0 or 1, and 0 past the end.
#[verifier::opaque]
pub open spec fn bit_at(data: Seq<u8>, k: int) -> int {
    if 0 <= k < 8 * data.len() {
        (data[k / 8] as int / bit_weight(k % 8)) % 2
    } else {
        0
    }
}

/// The number that bits `5 * i .. 5 * i + 5` of `data` spell.
pub open spec fn quintet(data: Seq<u8>, i: int) -> int {
    16 * bit_at(data, 5 * i) + 8 * bit_at(data, 5 * i + 1) + 4 * bit_at(data, 5 * i + 2) + 2
        * bit_at(data, 5 * i + 3) + bit_at(data, 5 * i + 4)
}

/// The number that bits `6 * i .. 6 * i + 6` of `data` spell.
pub open spec fn sextet(data: Seq<u8>, i: int) -> int {
    32 * bit_at(data, 6 * i) + 16 * bit_at(data, 6 * i + 1) + 8 * bit_at(data, 6 * i + 2) + 4
        * bit_at(data, 6 * i + 3) + 2 * bit_at(data, 6 * i + 4) + bit_at(data, 6 * i + 5)
}

/// How many base32 symbols `n` bytes take: one for each started group of five
/// bits.
pub open spec fn base32_len(n: nat) -> nat {
    ((8 * n + 4) / 5) as nat
}

/// The base32 alphabet in upper case.
pub open spec fn base32_upper_alphabet() -> Seq<char> {
    "ABCDEFGHIJKLMNOPQRSTUVWXYZ234567"@
}

/// The base32 alphabet in lower case, as onion hostnames use it.
pub open spec fn base32_lower_alphabet() -> Seq<char> {
    "abcdefghijklmnopqrstuvwxyz234567"@
}

/// Unpadded base32 of `data` over the upper-case alphabet.
pub open spec fn base32_upper(data: Seq<u8>) -> Seq<char> {
    Seq::new(base32_len(data.len()), |i: int| base32_upper_alphabet()[quintet(data, i)])
}

/// Unpadded base32 of `data` over the lower-case alphabet.
pub open spec fn base32_lower(data: Seq<u8>) -> Seq<char> {
    Seq::new(base32_len(data.len()), |i: int| base32_lower_alphabet()[quintet(data, i)])
}

/// The lower-case form of an ASCII letter; any other character is itself.
pub open spec fn ascii_lower(c: char) -> char {
    if 'A' <= c <= 'Z' {
        ((c as u8) + 32) as char
    } else {
        c
    }
}

/// The number a lower-case base32 symbol stands for.
pub open spec fn base32_value(c: char) -> Option<int> {
    if 'a' <= c <= 'z' {
        Some(c as int - 'a' as int)
    } else if '2' <= c <= '7' {
        Some(c as int - '2' as int + 26)
    } else {
        None
    }
}

/// Bit `k` of the bit string that a text of base32 symbols spells, five bits
/// to the symbol: the low five bits of the symbol's number.
#[verifier::opaque]
pub open spec fn symbol_bit(text: Seq<char>, k: int) -> int {
    if 0 <= k < 5 * text.len() {
        (base32_value(text[k / 5]).unwrap() / bit_weight(3 + k % 5)) % 2
    } else {
        0
    }
}

/// The byte that bits `8 * j .. 8 * j + 8` of a base32 text spell.
pub open spec fn octet(text: Seq<char>, j: int) -> int {
    128 * symbol_bit(text, 8 * j) + 64 * symbol_bit(text, 8 * j + 1) + 32 * symbol_bit(
        text,
        8 * j + 2,
    ) + 16 * symbol_bit(text, 8 * j + 3) + 8 * symbol_bit(text, 8 * j + 4) + 4 * symbol_bit(
        text,
        8 * j + 5,
    ) + 2 * symbol_bit(text, 8 * j + 6) + symbol_bit(text, 8 * j + 7)
}

/// Reads lower-case unpadded base32 back into bytes: every whole byte that the
/// symbols spell. `None` where a character is no symbol of the alphabet, so
/// for any text that holds `=`.
pub open spec fn base32_decode(text: Seq<char>) -> Option<Seq<u8>> {
    if forall|i: int| 0 <= i < text.len() ==> (#[trigger] base32_value(text[i])) is Some {
        Some(Seq::new((5 * text.len() / 8) as nat, |j: int| octet(text, j) as u8))
    } else {
        None
    }
}

/// How many base64 symbols `n` bytes take before padding.
pub open spec fn base64_symbols(n: nat) -> nat {
    ((8 * n + 5) / 6) as nat
}

/// The length of padded base64 of `n` bytes: four characters for each started
/// group of three bytes.
pub open spec fn base64_len(n: nat) -> nat {
    (4 * ((n + 2) / 3)) as nat
}

/// The standard base64 alphabet.
pub open spec fn base64_alphabet() -> Seq<char> {
    "ABCDEFGHIJKLMNOPQRSTUVWXYZabcdefghijklmnopqrstuvwxyz0123456789+/"@
}

/// Standard base64 of `data`, padded with `=`.
pub open spec fn base64_padded(data: Seq<u8>) -> Seq<char> {
    Seq::new(
        base64_len(data.len()),
        |i: int|
            if i < base64_symbols(data.len()) {
                base64_alphabet()[sextet(data, i)]
            } else {
                '='
            },
    )
}

/// A bit is 0 or 1.
pub proof fn lemma_bit_is_binary(data: Seq<u8>, k: int)
    ensures
        0 <= bit_at(data, k) <= 1,
{
    reveal(bit_at);
}

/// A group of five bits spells a number below 32.
pub proof fn lemma_quintet_range(data: Seq<u8>, i: int)
    ensures
        0 <= quintet(data, i) < 32,
{
    lemma_bit_is_binary(data, 5 * i);
    lemma_bit_is_binary(data, 5 * i + 1);
    lemma_bit_is_binary(data, 5 * i + 2);
    lemma_bit_is_binary(data, 5 * i + 3);
    lemma_bit_is_binary(data, 5 * i + 4);
}

/// A group of six bits spells a number below 64.
pub proof fn lemma_sextet_range(data: Seq<u8>, i: int)
    ensures
        0 <= sextet(data, i) < 64,
{
    lemma_bit_is_binary(data, 6 * i);
    lemma_bit_is_binary(data, 6 * i + 1);
    lemma_bit_is_binary(data, 6 * i + 2);
    lemma_bit_is_binary(data, 6 * i + 3);
    lemma_bit_is_binary(data, 6 * i + 4);
    lemma_bit_is_binary(data, 6 * i + 5);
}

/// The base64 alphabet has 64 symbols, none of them `=`.
pub proof fn lemma_base64_alphabet(v: int)
    requires
        0 <= v < 64,
    ensures
        base64_alphabet().len() == 64,
        base64_alphabet()[v] != '=',
{
    reveal_strlit("ABCDEFGHIJKLMNOPQRSTUVWXYZabcdefghijklmnopqrstuvwxyz0123456789+/");
}

/// Base64 of a whole number of three-byte groups takes four symbols for each
/// group and no padding.
pub proof fn lemma_base64_unpadded(data: Seq<u8>)
    requires
        data.len() % 3 == 0,
    ensures
        base64_padded(data).len() == 4 * (data.len() / 3),
        !base64_padded(data).contains('='),
{
    let text = base64_padded(data);
    assert(base64_symbols(data.len()) == base64_len(data.len()));
    assert forall|i: int| 0 <= i < text.len() implies #[trigger] text[i] != '=' by {
        lemma_sextet_range(data, i);
        lemma_base64_alphabet(sextet(data, i));
    }
}

/// The lower-case alphabet has 32 symbols, none of them `=`, and
/// `base32_value` numbers them in order.
pub proof fn lemma_base32_alphabet(v: int)
    requires
        0 <= v < 32,
    ensures
        base32_lower_alphabet().len() == 32,
        base32_upper_alphabet().len() == 32,
        base32_value(base32_lower_alphabet()[v]) == Some(v),
        base32_lower_alphabet()[v] != '=',
        ascii_lower(base32_upper_alphabet()[v]) == base32_lower_alphabet()[v],
{
    reveal_strlit("abcdefghijklmnopqrstuvwxyz234567");
    reveal_strlit("ABCDEFGHIJKLMNOPQRSTUVWXYZ234567");
}

/// Bit `s` of the number that five bits spell is the bit at place `s`.
proof fn lemma_quintet_digit(b0: int, b1: int, b2: int, b3: int, b4: int, s: int)
    requires
        0 <= b0 <= 1,
        0 <= b1 <= 1,
        0 <= b2 <= 1,
        0 <= b3 <= 1,
        0 <= b4 <= 1,
        0 <= s < 5,
    ensures
        ((16 * b0 + 8 * b1 + 4 * b2 + 2 * b3 + b4) / bit_weight(3 + s)) % 2 == (if s == 0 {
            b0
        } else if s == 1 {
            b1
        } else if s == 2 {
            b2
        } else if s == 3 {
            b3
        } else {
            b4
        }),
{
}

/// Each bit that the base32 text of `data` spells is the bit of `data` at the
/// same place.
proof fn lemma_symbol_bit(data: Seq<u8>, k: int)
    requires
        0 <= k < 8 * data.len(),
    ensures
        symbol_bit(base32_lower(data), k) == bit_at(data, k),
{
    let i = k / 5;
    let s = k % 5;
    assert(k == 5 * i + s);
    lemma_base32_alphabet_at(data, i);
    lemma_bit_is_binary(data, 5 * i);
    lemma_bit_is_binary(data, 5 * i + 1);
    lemma_bit_is_binary(data, 5 * i + 2);
    lemma_bit_is_binary(data, 5 * i + 3);
    lemma_bit_is_binary(data, 5 * i + 4);
    lemma_quintet_digit(
        bit_at(data, 5 * i),
        bit_at(data, 5 * i + 1),
        bit_at(data, 5 * i + 2),
        bit_at(data, 5 * i + 3),
        bit_at(data, 5 * i + 4),
        s,
    );
    assert(symbol_bit(base32_lower(data), k) == (quintet(data, i) / bit_weight(3 + s)) % 2) by {
        reveal(symbol_bit);
    }
}

/// Symbol `i` of the base32 text of `data` stands for group `i` of its bits.
proof fn lemma_base32_alphabet_at(data: Seq<u8>, i: int)
    requires
        0 <= i < base32_len(data.len()),
    ensures
        base32_value(base32_lower(data)[i]) == Some(quintet(data, i)),
        base32_lower(data)[i] != '=',
{
    lemma_quintet_range(data, i);
    lemma_base32_alphabet(quintet(data, i));
}

/// The eight bits of a byte, weighted, add up to the byte.
proof fn lemma_byte_from_bits(x: u8)
    ensures
        128 * ((x / 128) % 2) + 64 * ((x / 64) % 2) + 32 * ((x / 32) % 2) + 16 * ((x / 16) % 2) + 8
            * ((x / 8) % 2) + 4 * ((x / 4) % 2) + 2 * ((x / 2) % 2) + x % 2 == x,
{
    assert(128 * ((x / 128) % 2) + 64 * ((x / 64) % 2) + 32 * ((x / 32) % 2) + 16 * ((x / 16) % 2)
        + 8 * ((x / 8) % 2) + 4 * ((x / 4) % 2) + 2 * ((x / 2) % 2) + x % 2 == x) by (bit_vector);
}

/// Bit `t` of byte `j`, seen as bit `8 * j + t` of the whole input.
proof fn lemma_bit_of_byte(data: Seq<u8>, j: int, t: int)
    requires
        0 <= j < data.len(),
        0 <= t < 8,
    ensures
        bit_at(data, 8 * j + t) == (data[j] as int / bit_weight(t)) % 2,
        symbol_bit(base32_lower(data), 8 * j + t) == (data[j] as int / bit_weight(t)) % 2,
{
    reveal(bit_at);
    let k = 8 * j + t;
    assert(k / 8 == j && k % 8 == t);
    lemma_symbol_bit(data, k);
}

/// Byte `j` that the base32 text of `data` spells is byte `j` of `data`.
proof fn lemma_octet(data: Seq<u8>, j: int)
    requires
        0 <= j < data.len(),
    ensures
        octet(base32_lower(data), j) == data[j],
{
    lemma_bit_of_byte(data, j, 0);
    lemma_bit_of_byte(data, j, 1);
    lemma_bit_of_byte(data, j, 2);
    lemma_bit_of_byte(data, j, 3);
    lemma_bit_of_byte(data, j, 4);
    lemma_bit_of_byte(data, j, 5);
    lemma_bit_of_byte(data, j, 6);
    lemma_bit_of_byte(data, j, 7);
    lemma_byte_from_bits(data[j]);
    let x = data[j];
    assert(x as int / 1 == x as int);
}

/// The symbols of `n` bytes spell exactly `n` whole bytes.
proof fn lemma_base32_len(n: nat)
    ensures
        5 * base32_len(n) / 8 == n,
        8 * n <= 5 * base32_len(n),
{
}

/// Base32 loses nothing and never pads: decoding the lower-case base32 of any
/// bytes gives those bytes back, and the text holds no `=`.
pub proof fn lemma_base32_round_trip(data: Seq<u8>)
    ensures
        base32_decode(base32_lower(data)) == Some(data),
        !base32_lower(data).contains('='),
        base32_lower(data).len() == base32_len(data.len()),
{
    let text = base32_lower(data);
    assert forall|i: int| 0 <= i < text.len() implies (#[trigger] base32_value(text[i])) is Some by {
        lemma_base32_alphabet_at(data, i);
    }
    assert forall|i: int| 0 <= i < text.len() implies #[trigger] text[i] != '=' by {
        lemma_base32_alphabet_at(data, i);
    }
    lemma_base32_len(data.len());
    let decoded = Seq::new((5 * text.len() / 8) as nat, |j: int| octet(text, j) as u8);
    assert(decoded.len() == data.len());
    assert forall|j: int| 0 <= j < data.len() implies decoded[j] == data[j] by {
        lemma_octet(data, j);
    }
    assert(decoded =~= data);
}

} // verus!
