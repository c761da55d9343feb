//! The element's wire forms: eight bytes in either byte order, and a
//! hexadecimal string.

use vstd::prelude::*;
use vstd::string::is_ascii_spec_bytes;
use vstd::utf8::is_ascii_chars;
use lambdaworks_math::errors::ByteConversionError;
use lambdaworks_math::errors::CreationError;
use lambdaworks_math::errors::DeserializationError;
use crate::field::GoldilocksField;

verus! {

/// The word that the first eight bytes of `s` spell, most significant byte
/// first.
pub open spec fn be_word(s: Seq<u8>) -> int
    recommends
        s.len() >= 8,
{
    s[0] * 0x100_0000_0000_0000 + s[1] * 0x1_0000_0000_0000 + s[2] * 0x100_0000_0000 + s[3]
        * 0x1_0000_0000 + s[4] * 0x100_0000 + s[5] * 0x1_0000 + s[6] * 0x100 + s[7]
}

/// The word that the first eight bytes of `s` spell, least significant byte
/// first.
pub open spec fn le_word(s: Seq<u8>) -> int
    recommends
        s.len() >= 8,
{
    s[7] * 0x100_0000_0000_0000 + s[6] * 0x1_0000_0000_0000 + s[5] * 0x100_0000_0000 + s[4]
        * 0x1_0000_0000 + s[3] * 0x100_0000 + s[2] * 0x1_0000 + s[1] * 0x100 + s[0]
}

/// The eight bytes of a word, most significant first.
pub open spec fn be_bytes(x: u64) -> Seq<u8> {
    seq![
        (x / 0x100_0000_0000_0000) as u8,
        (x / 0x1_0000_0000_0000 % 256) as u8,
        (x / 0x100_0000_0000 % 256) as u8,
        (x / 0x1_0000_0000 % 256) as u8,
        (x / 0x100_0000 % 256) as u8,
        (x / 0x1_0000 % 256) as u8,
        (x / 0x100 % 256) as u8,
        (x % 256) as u8,
    ]
}

/// The eight bytes of a word, least significant first.
pub open spec fn le_bytes(x: u64) -> Seq<u8> {
    seq![
        (x % 256) as u8,
        (x / 0x100 % 256) as u8,
        (x / 0x1_0000 % 256) as u8,
        (x / 0x100_0000 % 256) as u8,
        (x / 0x1_0000_0000 % 256) as u8,
        (x / 0x100_0000_0000 % 256) as u8,
        (x / 0x1_0000_0000_0000 % 256) as u8,
        (x / 0x100_0000_0000_0000) as u8,
    ]
}

/// Whether `c` is one of `0-9`, `a-f`, `A-F`.
pub open spec fn is_hex_digit(c: char) -> bool {
    ('0' <= c <= '9') || ('a' <= c <= 'f') || ('A' <= c <= 'F')
}

/// The value of a hexadecimal digit; zero for any other character.
pub open spec fn hex_digit_value(c: char) -> nat {
    if '0' <= c <= '9' {
        (c as u32 - 48) as nat
    } else if 'a' <= c <= 'f' {
        (c as u32 - 87) as nat
    } else if 'A' <= c <= 'F' {
        (c as u32 - 55) as nat
    } else {
        0
    }
}

/// Whether `s` is a hexadecimal numeral: not empty, and digits only.
pub open spec fn is_hex_numeral(s: Seq<char>) -> bool {
    s.len() > 0 && forall|i: int| 0 <= i < s.len() ==> is_hex_digit(#[trigger] s[i])
}

/// The number that the digits of `s` spell in base 16.
pub open spec fn hex_value(s: Seq<char>) -> nat
    decreases s.len(),
{
    if s.len() == 0 {
        0
    } else {
        16 * hex_value(s.drop_last()) + hex_digit_value(s.last())
    }
}

/// The digits of a hex string: the string without a leading `0x`, which
/// counts as a prefix only where something follows it.
pub open spec fn hex_digits_of(s: Seq<char>) -> Seq<char> {
    if s.len() > 2 && s[0] == '0' && s[1] == 'x' {
        s.skip(2)
    } else {
        s
    }
}

/// The word that a hex string spells, if it spells one: its digits form a
/// numeral whose value fits in 64 bits.
pub open spec fn parse_hex(s: Seq<char>) -> Option<u64> {
    let digits = hex_digits_of(s);
    if is_hex_numeral(digits) && hex_value(digits) <= u64::MAX {
        Some(hex_value(digits) as u64)
    } else {
        None
    }
}

/// The eight base-256 digits of a word add up to the word.
proof fn lemma_digits_of_word(x: u64)
    ensures
        x / 0x100_0000_0000_0000 < 256,
        x == (x / 0x100_0000_0000_0000) * 0x100_0000_0000_0000 + (x / 0x1_0000_0000_0000 % 256)
            * 0x1_0000_0000_0000 + (x / 0x100_0000_0000 % 256) * 0x100_0000_0000 + (x
            / 0x1_0000_0000 % 256) * 0x1_0000_0000 + (x / 0x100_0000 % 256) * 0x100_0000 + (x
            / 0x1_0000 % 256) * 0x1_0000 + (x / 0x100 % 256) * 0x100 + x % 256,
{
    let q1 = x / 0x100;
    let q2 = x / 0x1_0000;
    let q3 = x / 0x100_0000;
    let q4 = x / 0x1_0000_0000;
    let q5 = x / 0x100_0000_0000;
    let q6 = x / 0x1_0000_0000_0000;
    let q7 = x / 0x100_0000_0000_0000;
    assert(q2 == q1 / 256 && q3 == q2 / 256 && q4 == q3 / 256 && q5 == q4 / 256 && q6 == q5 / 256
        && q7 == q6 / 256) by (bit_vector)
        requires
            q1 == x / 0x100,
            q2 == x / 0x1_0000,
            q3 == x / 0x100_0000,
            q4 == x / 0x1_0000_0000,
            q5 == x / 0x100_0000_0000,
            q6 == x / 0x1_0000_0000_0000,
            q7 == x / 0x100_0000_0000_0000,
    ;
}

/// A sum of eight base-256 digits has those digits.
proof fn lemma_word_of_digits(
    d7: int,
    d6: int,
    d5: int,
    d4: int,
    d3: int,
    d2: int,
    d1: int,
    d0: int,
) -> (x: int)
    requires
        0 <= d7 < 256,
        0 <= d6 < 256,
        0 <= d5 < 256,
        0 <= d4 < 256,
        0 <= d3 < 256,
        0 <= d2 < 256,
        0 <= d1 < 256,
        0 <= d0 < 256,
    ensures
        x == d7 * 0x100_0000_0000_0000 + d6 * 0x1_0000_0000_0000 + d5 * 0x100_0000_0000 + d4
            * 0x1_0000_0000 + d3 * 0x100_0000 + d2 * 0x1_0000 + d1 * 0x100 + d0,
        0 <= x <= u64::MAX,
        x / 0x100_0000_0000_0000 == d7,
        x / 0x1_0000_0000_0000 % 256 == d6,
        x / 0x100_0000_0000 % 256 == d5,
        x / 0x1_0000_0000 % 256 == d4,
        x / 0x100_0000 % 256 == d3,
        x / 0x1_0000 % 256 == d2,
        x / 0x100 % 256 == d1,
        x % 256 == d0,
{
    let x7 = d7;
    let x6 = x7 * 256 + d6;
    let x5 = x6 * 256 + d5;
    let x4 = x5 * 256 + d4;
    let x3 = x4 * 256 + d3;
    let x2 = x3 * 256 + d2;
    let x1 = x2 * 256 + d1;
    let x = x1 * 256 + d0;
    x
}

/// The bytes of a word spell that word again, in either byte order.
pub proof fn lemma_bytes_spell_word(x: u64)
    ensures
        be_bytes(x).len() == 8,
        le_bytes(x).len() == 8,
        be_word(be_bytes(x)) == x,
        le_word(le_bytes(x)) == x,
{
    lemma_digits_of_word(x);
}

/// Eight bytes are the bytes of the word that they spell, in either byte
/// order.
pub proof fn lemma_word_spelt_by_bytes(s: Seq<u8>)
    requires
        s.len() == 8,
    ensures
        0 <= be_word(s) <= u64::MAX,
        0 <= le_word(s) <= u64::MAX,
        be_bytes(be_word(s) as u64) == s,
        le_bytes(le_word(s) as u64) == s,
{
    lemma_word_of_digits(
        s[0] as int,
        s[1] as int,
        s[2] as int,
        s[3] as int,
        s[4] as int,
        s[5] as int,
        s[6] as int,
        s[7] as int,
    );
    lemma_word_of_digits(
        s[7] as int,
        s[6] as int,
        s[5] as int,
        s[4] as int,
        s[3] as int,
        s[2] as int,
        s[1] as int,
        s[0] as int,
    );
}

/// A numeral's value is at least the value of each of its prefixes.
pub proof fn lemma_hex_value_of_prefix(s: Seq<char>, k: int)
    requires
        0 <= k <= s.len(),
    ensures
        hex_value(s.take(k)) <= hex_value(s),
    decreases s.len(),
{
    if k == s.len() {
        assert(s.take(k) =~= s);
    } else {
        assert(s.drop_last().take(k) =~= s.take(k));
        lemma_hex_value_of_prefix(s.drop_last(), k);
    }
}

/// A string whose digits form a numeral holds ASCII characters only.
pub proof fn lemma_numeral_is_ascii(s: Seq<char>)
    requires
        is_hex_numeral(hex_digits_of(s)),
    ensures
        is_ascii_chars(s),
{
    let digits = hex_digits_of(s);
    assert forall|i: int| 0 <= i < s.len() implies '\0' <= #[trigger] s[i] <= '\u{7f}' by {
        if digits.len() < s.len() && i >= 2 {
            assert(is_hex_digit(digits[i - 2]));
        }
    }
}

/// The value of the hexadecimal digit with the code `b`, if `b` is the code
/// of one; `c` is the character that `b` encodes.
fn hex_digit_of_byte(b: u8, Ghost(c): Ghost<char>) -> (r: Option<u8>)
    requires
        c as u32 == b as u32,
    ensures
        (match r {
            Some(d) => is_hex_digit(c) && d == hex_digit_value(c),
            None => !is_hex_digit(c),
        }),
{
    if 48 <= b && b <= 57 {
        Some(b - 48)
    } else if 97 <= b && b <= 102 {
        Some(b - 87)
    } else if 65 <= b && b <= 70 {
        Some(b - 55)
    } else {
        None
    }
}

impl GoldilocksField {
    /// The eight bytes of the word as it is held, most significant first.
    pub fn to_bytes_be(&self) -> (r: Vec<u8>)
        ensures
            r@ == be_bytes(self.value),
    {
        let x: u64 = self.value;
        let r = vec![
            (x / 0x100_0000_0000_0000) as u8,
            (x / 0x1_0000_0000_0000 % 256) as u8,
            (x / 0x100_0000_0000 % 256) as u8,
            (x / 0x1_0000_0000 % 256) as u8,
            (x / 0x100_0000 % 256) as u8,
            (x / 0x1_0000 % 256) as u8,
            (x / 0x100 % 256) as u8,
            (x % 256) as u8,
        ];
        r
    }

    /// The eight bytes of the word as it is held, least significant first.
    pub fn to_bytes_le(&self) -> (r: Vec<u8>)
        ensures
            r@ == le_bytes(self.value),
    {
        let x: u64 = self.value;
        let r = vec![
            (x % 256) as u8,
            (x / 0x100 % 256) as u8,
            (x / 0x1_0000 % 256) as u8,
            (x / 0x100_0000 % 256) as u8,
            (x / 0x1_0000_0000 % 256) as u8,
            (x / 0x100_0000_0000 % 256) as u8,
            (x / 0x1_0000_0000_0000 % 256) as u8,
            (x / 0x100_0000_0000_0000) as u8,
        ];
        r
    }

    /// The element whose word the first eight bytes spell, most significant
    /// first; bytes after the eighth are ignored. Fewer than eight bytes
    /// are an error.
    pub fn from_bytes_be(bytes: &[u8]) -> (r: Result<Self, ByteConversionError>)
        ensures
            (match r {
                Ok(element) => bytes@.len() >= 8 && element@ == be_word(bytes@),
                Err(error) => bytes@.len() < 8 && error == ByteConversionError::FromBEBytesError,
            }),
    {
        if bytes.len() < 8 {
            return Err(ByteConversionError::FromBEBytesError);
        }
        let value: u64 = bytes[0] as u64 * 0x100_0000_0000_0000 + bytes[1] as u64
            * 0x1_0000_0000_0000 + bytes[2] as u64 * 0x100_0000_0000 + bytes[3] as u64
            * 0x1_0000_0000 + bytes[4] as u64 * 0x100_0000 + bytes[5] as u64 * 0x1_0000
            + bytes[6] as u64 * 0x100 + bytes[7] as u64;
        Ok(GoldilocksField { value })
    }

    /// The element whose word the first eight bytes spell, least significant
    /// first; bytes after the eighth are ignored. Fewer than eight bytes
    /// are an error.
    pub fn from_bytes_le(bytes: &[u8]) -> (r: Result<Self, ByteConversionError>)
        ensures
            (match r {
                Ok(element) => bytes@.len() >= 8 && element@ == le_word(bytes@),
                Err(error) => bytes@.len() < 8 && error == ByteConversionError::FromLEBytesError,
            }),
    {
        if bytes.len() < 8 {
            return Err(ByteConversionError::FromLEBytesError);
        }
        let value: u64 = bytes[7] as u64 * 0x100_0000_0000_0000 + bytes[6] as u64
            * 0x1_0000_0000_0000 + bytes[5] as u64 * 0x100_0000_0000 + bytes[4] as u64
            * 0x1_0000_0000 + bytes[3] as u64 * 0x100_0000 + bytes[2] as u64 * 0x1_0000
            + bytes[1] as u64 * 0x100 + bytes[0] as u64;
        Ok(GoldilocksField { value })
    }

    /// The wire form: the eight bytes of the word, most significant first.
    pub fn serialize(&self) -> (r: Vec<u8>)
        ensures
            r@ == be_bytes(self.value),
    {
        self.to_bytes_be()
    }

    /// The element read from its wire form. Fewer than eight bytes are an
    /// error.
    pub fn deserialize(bytes: &[u8]) -> (r: Result<Self, DeserializationError>)
        ensures
            (match r {
                Ok(element) => bytes@.len() >= 8 && element@ == be_word(bytes@),
                Err(error) => bytes@.len() < 8 && error == DeserializationError::FieldFromBytesError,
            }),
    {
        match Self::from_bytes_be(bytes) {
            Ok(element) => Ok(element),
            Err(error) => Err(DeserializationError::from(error)),
        }
    }

    /// The word that a hex string spells. A leading `0x` is skipped where
    /// something follows it. An empty numeral, a character that is no hex
    /// digit, and a value that does not fit in 64 bits are errors. The word
    /// is not reduced.
    pub fn from_hex(hex_string: &str) -> (r: Result<u64, CreationError>)
        ensures
            (match r {
                Ok(word) => parse_hex(hex_string@) == Some(word),
                Err(error) => parse_hex(hex_string@) is None && error
                    == CreationError::InvalidHexString,
            }),
    {
        let ghost text = hex_string@;
        let ghost digits = hex_digits_of(text);
        if !hex_string.is_ascii() {
            proof {
                if is_hex_numeral(digits) {
                    lemma_numeral_is_ascii(text);
                }
            }
            return Err(CreationError::InvalidHexString);
        }
        let bytes = hex_string.as_bytes();
        proof {
            // each byte is the code of the character at its place
            is_ascii_spec_bytes(hex_string);
        }
        let n: usize = bytes.len();
        let start: usize = if n > 2 && bytes[0] == 48 && bytes[1] == 120 {
            2
        } else {
            0
        };
        if start == n {
            return Err(CreationError::InvalidHexString);
        }
        let mut acc: u64 = 0;
        let mut i: usize = start;
        while i < n
            invariant
                start <= i <= n,
                n == bytes@.len(),
                n == text.len(),
                digits == text.skip(start as int),
                digits == hex_digits_of(text),
                text == hex_string@,
                forall|j: int| 0 <= j < n ==> (#[trigger] text[j]) <= '\u{7f}',
                forall|j: int| 0 <= j < n ==> text[j] as u32 == #[trigger] bytes@[j] as u32,
                forall|j: int| 0 <= j < i - start ==> is_hex_digit(#[trigger] digits[j]),
                acc == hex_value(digits.take(i - start)),
            decreases n - i,
        {
            let ghost k = i - start;
            proof {
                assert(digits.take(k + 1).drop_last() =~= digits.take(k));
                assert(digits.take(k + 1).last() == digits[k]);
            }
            match hex_digit_of_byte(bytes[i], Ghost(text[i as int])) {
                None => {
                    return Err(CreationError::InvalidHexString);
                },
                Some(digit) => {
                    if acc > (u64::MAX - digit as u64) / 16 {
                        proof {
                            lemma_hex_value_of_prefix(digits, k + 1);
                        }
                        return Err(CreationError::InvalidHexString);
                    }
                    acc = acc * 16 + digit as u64;
                },
            }
            i += 1;
        }
        assert(digits.take(n - start) =~= digits);
        Ok(acc)
    }
}

} // verus!
