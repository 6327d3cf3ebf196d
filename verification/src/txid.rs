//! Transaction identifiers: 32-byte hashes, hex-encoded at the boundary.
//!
//! The `listvaults` handler decodes every identifier it is given before
//! anything is sent to the worker; a string that is not exactly 64
//! hexadecimal digits is rejected, naming the failure.
//!
//! The decoded bytes are kept in the order the hex string spells them.
//! Identifiers are opaque at this boundary, so the worker and its callers
//! must simply agree on one spelling; a consumer following bitcoin's
//! convention of displaying txids with the byte order reversed would have
//! to reverse them itself.

use vstd::prelude::*;

verus! {

/// Byte length of a decoded transaction identifier.
pub const TXID_LEN: usize = 32;

/// Character count of a hex-encoded transaction identifier.
pub const TXID_HEX_LEN: usize = 64;

/// Whether `c` is a hexadecimal digit, either case.
pub open spec fn spec_is_hex_digit(c: char) -> bool {
    ('0' as u32 <= c as u32 && c as u32 <= '9' as u32) || ('a' as u32 <= c as u32 && c as u32
        <= 'f' as u32) || ('A' as u32 <= c as u32 && c as u32 <= 'F' as u32)
}

/// The numeric value of the hexadecimal digit `c`.
pub open spec fn spec_hex_digit_value(c: char) -> u8
    recommends
        spec_is_hex_digit(c),
{
    if '0' as u32 <= c as u32 && c as u32 <= '9' as u32 {
        (c as u32 - '0' as u32) as u8
    } else if 'a' as u32 <= c as u32 && c as u32 <= 'f' as u32 {
        (c as u32 - 'a' as u32 + 10) as u8
    } else {
        (c as u32 - 'A' as u32 + 10) as u8
    }
}

/// Whether `s` spells a transaction identifier: exactly 64 hex digits.
pub open spec fn spec_txid_hex_valid(s: Seq<char>) -> bool {
    s.len() == TXID_HEX_LEN && (forall|i: int|
        0 <= i < s.len() ==> spec_is_hex_digit(#[trigger] s[i]))
}

/// The 32 bytes spelled by a valid 64-digit hex string, in reading order.
pub open spec fn spec_decoded_txid(s: Seq<char>) -> Seq<u8>
    recommends
        spec_txid_hex_valid(s),
{
    Seq::new(
        TXID_LEN as nat,
        |i: int|
            ((spec_hex_digit_value(s[2 * i]) * 16 + spec_hex_digit_value(s[2 * i + 1])) as u8),
    )
}

/// The position of the first character of `s` at or after `i` that is not a
/// hex digit, or `s.len()` if there is none.
pub open spec fn first_non_hex_from(s: Seq<char>, i: int) -> int
    recommends
        0 <= i <= s.len(),
    decreases s.len() - i,
{
    if i >= s.len() {
        i
    } else if !spec_is_hex_digit(s[i]) {
        i
    } else {
        first_non_hex_from(s, i + 1)
    }
}

/// The position of the first character of `s` that is not a hex digit, or
/// `s.len()` if every character is one.
pub open spec fn first_non_hex(s: Seq<char>) -> int {
    first_non_hex_from(s, 0)
}

/// `first_non_hex_from` finds exactly the first offender: everything before
/// it is a hex digit, and the position itself, when inside the string, is not.
pub proof fn lemma_first_non_hex_from(s: Seq<char>, i: int)
    requires
        0 <= i <= s.len(),
    ensures
        i <= first_non_hex_from(s, i) <= s.len(),
        forall|k: int| i <= k < first_non_hex_from(s, i) ==> spec_is_hex_digit(#[trigger] s[k]),
        first_non_hex_from(s, i) < s.len() ==> !spec_is_hex_digit(s[first_non_hex_from(s, i)]),
    decreases s.len() - i,
{
    if i < s.len() && spec_is_hex_digit(s[i]) {
        lemma_first_non_hex_from(s, i + 1);
    }
}

/// A position that is not a hex digit, with only hex digits before it, is
/// where `first_non_hex` points.
pub proof fn lemma_first_non_hex_at(s: Seq<char>, p: int)
    requires
        0 <= p < s.len(),
        forall|k: int| 0 <= k < p ==> spec_is_hex_digit(#[trigger] s[k]),
        !spec_is_hex_digit(s[p]),
    ensures
        first_non_hex(s) == p,
{
    lemma_first_from_at(s, 0, p);
}

proof fn lemma_first_from_at(s: Seq<char>, i: int, p: int)
    requires
        0 <= i <= p < s.len(),
        forall|k: int| i <= k < p ==> spec_is_hex_digit(#[trigger] s[k]),
        !spec_is_hex_digit(s[p]),
    ensures
        first_non_hex_from(s, i) == p,
    decreases p - i,
{
    if i < p {
        lemma_first_from_at(s, i + 1, p);
    }
}

/// Why a string failed to decode as a transaction identifier.
#[derive(Clone, Copy, PartialEq, Eq, Structural, Debug)]
pub enum HexError {
    /// The string does not hold the 64 characters of a hex-encoded txid.
    BadLength { got: usize },
    /// The first character of the string that is not a hexadecimal digit.
    BadCharacter { found: char },
}

impl HexError {
    /// The human-readable decode-failure reason.
    pub open spec fn spec_reason(self) -> Seq<char> {
        match self {
            HexError::BadLength { .. } => "invalid hex string length"@,
            HexError::BadCharacter { .. } => "invalid hex character"@,
        }
    }

    /// States the decode-failure reason in words.
    pub fn reason(&self) -> (r: &'static str)
        ensures
            r@ == self.spec_reason(),
    {
        match self {
            HexError::BadLength { .. } => "invalid hex string length",
            HexError::BadCharacter { .. } => "invalid hex character",
        }
    }
}

/// The exact error a string that does not spell a transaction identifier is
/// rejected with: its length when that is off, else its first character that
/// is not a hex digit.
pub open spec fn spec_hex_error(s: Seq<char>) -> HexError
    recommends
        !spec_txid_hex_valid(s),
{
    if s.len() != TXID_HEX_LEN {
        HexError::BadLength { got: s.len() as usize }
    } else {
        HexError::BadCharacter { found: s[first_non_hex(s)] }
    }
}

/// What decoding `s` as a transaction identifier yields: the 32 bytes, or
/// the exact error `Txid::from_hex` reports.
pub open spec fn spec_from_hex(s: Seq<char>) -> Result<Seq<u8>, HexError> {
    if s.len() != TXID_HEX_LEN {
        Err(HexError::BadLength { got: s.len() as usize })
    } else if first_non_hex(s) < s.len() {
        Err(HexError::BadCharacter { found: s[first_non_hex(s)] })
    } else {
        Ok(spec_decoded_txid(s))
    }
}

/// Decoding succeeds exactly on the valid 64-digit hex strings, and a
/// rejected string gets exactly the error of [`spec_hex_error`].
pub proof fn lemma_from_hex_cases(s: Seq<char>)
    ensures
        spec_from_hex(s) is Ok <==> spec_txid_hex_valid(s),
        !spec_txid_hex_valid(s) ==> spec_from_hex(s) == Err::<Seq<u8>, HexError>(
            spec_hex_error(s),
        ),
{
    lemma_first_non_hex_from(s, 0);
}

/// A decoded 32-byte transaction identifier.
#[derive(Debug)]
pub struct Txid {
    bytes: Vec<u8>,
}

impl View for Txid {
    type V = Seq<u8>;

    closed spec fn view(&self) -> Seq<u8> {
        self.bytes@
    }
}

impl Txid {
    /// A well-formed identifier holds exactly 32 bytes.
    pub open spec fn wf(&self) -> bool {
        self@.len() == TXID_LEN
    }

    /// Decodes a hex-encoded transaction identifier.  Succeeds exactly on
    /// strings of 64 hex digits; otherwise reports the length, or the first
    /// character that is not a hex digit.
    pub fn from_hex(s: &str) -> (r: Result<Txid, HexError>)
        ensures
            match r {
                Ok(t) => t.wf() && spec_from_hex(s@) == Ok::<Seq<u8>, HexError>(t@),
                Err(e) => spec_from_hex(s@) == Err::<Seq<u8>, HexError>(e),
            },
    {
        let n: usize = s.unicode_len();
        if n != TXID_HEX_LEN {
            return Err(HexError::BadLength { got: n });
        }
        let mut bytes: Vec<u8> = Vec::new();
        let mut i: usize = 0;
        while i < TXID_LEN
            invariant
                i <= TXID_LEN,
                s@.len() == TXID_HEX_LEN,
                bytes@.len() == i,
                forall|k: int| 0 <= k < 2 * i ==> spec_is_hex_digit(#[trigger] s@[k]),
                forall|j: int|
                    0 <= j < i ==> bytes@[j] == ((spec_hex_digit_value(s@[2 * j]) * 16
                        + spec_hex_digit_value(s@[2 * j + 1])) as u8),
            decreases TXID_LEN - i,
        {
            let hi_c = s.get_char(2 * i);
            if !is_hex_digit(hi_c) {
                proof {
                    lemma_first_non_hex_at(s@, 2 * i);
                }
                return Err(HexError::BadCharacter { found: hi_c });
            }
            let lo_c = s.get_char(2 * i + 1);
            if !is_hex_digit(lo_c) {
                proof {
                    lemma_first_non_hex_at(s@, 2 * i + 1);
                }
                return Err(HexError::BadCharacter { found: lo_c });
            }
            let hi: u8 = hex_digit_value(hi_c);
            let lo: u8 = hex_digit_value(lo_c);
            bytes.push(hi * 16 + lo);
            i += 1;
        }
        proof {
            lemma_first_non_hex_from(s@, 0);
            assert(bytes@ =~= spec_decoded_txid(s@));
        }
        Ok(Txid { bytes })
    }

    /// The identifier's 32 bytes.
    pub fn as_bytes(&self) -> (r: &[u8])
        ensures
            r@ == self@,
    {
        self.bytes.as_slice()
    }
}

/// Whether `c` is a hexadecimal digit.
pub fn is_hex_digit(c: char) -> (r: bool)
    ensures
        r == spec_is_hex_digit(c),
{
    let v: u32 = c as u32;
    (48 <= v && v <= 57) || (97 <= v && v <= 102) || (65 <= v && v <= 70)
}

/// The numeric value of the hexadecimal digit `c`.
pub fn hex_digit_value(c: char) -> (r: u8)
    requires
        spec_is_hex_digit(c),
    ensures
        r == spec_hex_digit_value(c),
        r < 16,
{
    let v: u32 = c as u32;
    if 48 <= v && v <= 57 {
        (v - 48) as u8
    } else if 97 <= v && v <= 102 {
        (v - 97 + 10) as u8
    } else {
        (v - 65 + 10) as u8
    }
}

} // verus!
