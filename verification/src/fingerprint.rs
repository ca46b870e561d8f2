//! Address fingerprints: the fixed byte identifier of a remote destination.
//!
//! A fingerprint is parsed once from a hexadecimal configuration string and
//! after that is used only for exact byte-for-byte equality, to decide
//! whether an announce or a link event concerns the configured peer.

use vstd::prelude::*;

verus! {

/// Code-point value of a hexadecimal digit, or 16 for any other character.
pub open spec fn hex_digit_value(c: char) -> int {
    let u = c as int;
    if 48 <= u && u <= 57 {
        u - 48
    } else if 97 <= u && u <= 102 {
        u - 87
    } else if 65 <= u && u <= 70 {
        u - 55
    } else {
        16
    }
}

/// True when `c` is an ASCII hexadecimal digit, upper or lower case.
pub open spec fn is_hex_digit(c: char) -> bool {
    hex_digit_value(c) < 16
}

/// The byte encoded by the digit pair at positions `2j` and `2j + 1` of `s`.
pub open spec fn hex_byte_at(s: Seq<char>, j: int) -> u8
    recommends
        0 <= j,
        2 * j + 1 < s.len(),
{
    (hex_digit_value(s[2 * j]) * 16 + hex_digit_value(s[2 * j + 1])) as u8
}

/// True when every character of `s` is a hexadecimal digit.
pub open spec fn all_hex_digits(s: Seq<char>) -> bool {
    forall|i: int| 0 <= i < s.len() ==> is_hex_digit(#[trigger] s[i])
}

/// True when `s` is a well-formed fingerprint string: non-empty, of even
/// length, made of hexadecimal digits only.
pub open spec fn valid_hex_string(s: Seq<char>) -> bool {
    s.len() > 0 && s.len() % 2 == 0 && all_hex_digits(s)
}

/// Why a fingerprint configuration string was rejected.
#[derive(Clone, Copy, Debug, PartialEq, Eq, Structural)]
pub enum FingerprintParseError {
    /// The string is empty.
    Empty,
    /// The string has an odd number of characters, so its last digit
    /// encodes no byte.
    OddLength,
    /// Some character is not a hexadecimal digit.
    InvalidDigit,
}

/// Fixed byte identifier of a remote destination, compared only for exact
/// byte-for-byte equality.
#[derive(Debug)]
pub struct Fingerprint {
    bytes: Vec<u8>,
}

impl View for Fingerprint {
    type V = Seq<u8>;

    closed spec fn view(&self) -> Seq<u8> {
        self.bytes@
    }
}

/// Decodes one hexadecimal digit.
fn hex_digit(c: char) -> (r: Option<u8>)
    ensures
        r is Some <==> is_hex_digit(c),
        r is Some ==> r->0 == hex_digit_value(c),
{
    let u = c as u32;
    if 48 <= u && u <= 57 {
        Some((u - 48) as u8)
    } else if 97 <= u && u <= 102 {
        Some((u - 87) as u8)
    } else if 65 <= u && u <= 70 {
        Some((u - 55) as u8)
    } else {
        None
    }
}

impl Fingerprint {
    /// Parses a fingerprint from its hexadecimal configuration string.
    ///
    /// Succeeds exactly on non-empty, even-length strings of hexadecimal
    /// digits; the result holds one byte per digit pair. Each rejected
    /// string gets the error naming the first reason that applies: empty,
    /// odd length, or a character that is no digit.
    pub fn from_hex(s: &str) -> (r: Result<Fingerprint, FingerprintParseError>)
        ensures
            r is Ok <==> valid_hex_string(s@),
            r matches Ok(f) ==> f@.len() == s@.len() / 2,
            r matches Ok(f) ==> forall|j: int|
                0 <= j < f@.len() ==> #[trigger] f@[j] == hex_byte_at(s@, j),
            r matches Err(e) ==> (e is Empty <==> s@.len() == 0),
            r matches Err(e) ==> (e is OddLength <==> s@.len() > 0 && s@.len() % 2 != 0),
            r matches Err(e) ==> (e is InvalidDigit <==> s@.len() > 0 && s@.len() % 2 == 0
                && !all_hex_digits(s@)),
    {
        let n = s.unicode_len();
        if n == 0 {
            return Err(FingerprintParseError::Empty);
        }
        if n % 2 != 0 {
            return Err(FingerprintParseError::OddLength);
        }
        let mut bytes: Vec<u8> = Vec::new();
        let mut j: usize = 0;
        while j < n / 2
            invariant
                s@.len() == n,
                n % 2 == 0,
                j <= n / 2,
                bytes@.len() == j,
                forall|k: int| 0 <= k < j ==> #[trigger] bytes@[k] == hex_byte_at(s@, k),
                forall|i: int| 0 <= i < 2 * j ==> is_hex_digit(#[trigger] s@[i]),
            decreases n / 2 - j,
        {
            let hi = match hex_digit(s.get_char(2 * j)) {
                Some(v) => v,
                None => {
                    return Err(FingerprintParseError::InvalidDigit);
                },
            };
            let lo = match hex_digit(s.get_char(2 * j + 1)) {
                Some(v) => v,
                None => {
                    return Err(FingerprintParseError::InvalidDigit);
                },
            };
            bytes.push(hi * 16 + lo);
            j += 1;
        }
        Ok(Fingerprint { bytes })
    }

    /// Wraps raw bytes, as handed over by the transport boundary.
    pub fn from_bytes(bytes: Vec<u8>) -> (r: Fingerprint)
        ensures
            r@ == bytes@,
    {
        Fingerprint { bytes }
    }

    /// Number of bytes of the fingerprint.
    pub fn len(&self) -> (n: usize)
        ensures
            n == self@.len(),
    {
        self.bytes.len()
    }

    /// Exact byte-for-byte equality: no normalization, no partial match.
    pub fn matches(&self, other: &Fingerprint) -> (r: bool)
        ensures
            r <==> self@ == other@,
    {
        if self.bytes.len() != other.bytes.len() {
            return false;
        }
        let mut i: usize = 0;
        while i < self.bytes.len()
            invariant
                i <= self.bytes.len(),
                self.bytes.len() == other.bytes.len(),
                forall|k: int| 0 <= k < i ==> self@[k] == other@[k],
            decreases self.bytes.len() - i,
        {
            if self.bytes[i] != other.bytes[i] {
                return false;
            }
            i += 1;
        }
        assert(self@ =~= other@);
        true
    }

    /// A fresh fingerprint holding the same bytes.
    pub fn duplicate(&self) -> (r: Fingerprint)
        ensures
            r@ == self@,
    {
        Fingerprint { bytes: copy_bytes(&self.bytes) }
    }
}

/// A fresh vector holding the same bytes.
pub(crate) fn copy_bytes(v: &Vec<u8>) -> (r: Vec<u8>)
    ensures
        r@ == v@,
{
    let mut out: Vec<u8> = Vec::new();
    let mut i: usize = 0;
    while i < v.len()
        invariant
            i <= v.len(),
            out@ =~= v@.take(i as int),
        decreases v.len() - i,
    {
        out.push(v[i]);
        i += 1;
    }
    assert(out@ =~= v@);
    out
}

} // verus!
