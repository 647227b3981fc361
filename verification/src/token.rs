//! Asset identifiers and their syntactic validity.
//!
//! A fungible-asset identifier is an ASCII byte string of the form
//! `TICKER-rrrrrr`: an uppercase alphanumeric ticker of 3 to 10 bytes, a
//! single dash, and exactly 6 lowercase alphanumeric bytes.

use vstd::prelude::*;

verus! {

/// An asset identifier: the full ASCII name of the asset.
pub struct TokenIdentifier {
    pub bytes: Vec<u8>,
}

impl View for TokenIdentifier {
    type V = Seq<u8>;

    open spec fn view(&self) -> Seq<u8> {
        self.bytes@
    }
}

/// ASCII codes that delimit the accepted byte ranges.
pub const UPPER_A: u8 = 65;

pub const UPPER_Z: u8 = 90;

pub const LOWER_A: u8 = 97;

pub const LOWER_Z: u8 = 122;

pub const DIGIT_0: u8 = 48;

pub const DIGIT_9: u8 = 57;

pub const DASH: u8 = 45;

/// A ticker byte: uppercase letter or digit.
pub open spec fn is_ticker_byte(c: u8) -> bool {
    (UPPER_A <= c && c <= UPPER_Z) || (DIGIT_0 <= c && c <= DIGIT_9)
}

/// A random-suffix byte: lowercase letter or digit.
pub open spec fn is_random_byte(c: u8) -> bool {
    (LOWER_A <= c && c <= LOWER_Z) || (DIGIT_0 <= c && c <= DIGIT_9)
}

/// Syntactic validity of an asset identifier: a ticker of 3 to 10 uppercase
/// alphanumeric bytes, a dash, and a suffix of exactly 6 lowercase
/// alphanumeric bytes.
pub open spec fn valid_token_id(s: Seq<u8>) -> bool {
    &&& 10 <= s.len() <= 17
    &&& forall|i: int| 0 <= i < s.len() - 7 ==> is_ticker_byte(#[trigger] s[i])
    &&& s[s.len() - 7] == DASH
    &&& forall|i: int| s.len() - 6 <= i < s.len() ==> is_random_byte(#[trigger] s[i])
}

impl TokenIdentifier {
    /// Wraps raw bytes as an identifier; validity is checked separately.
    pub fn from_bytes(bytes: Vec<u8>) -> (r: TokenIdentifier)
        ensures
            r@ == bytes@,
    {
        TokenIdentifier { bytes }
    }

    /// Decides whether this identifier is syntactically valid.
    pub fn is_valid_esdt_identifier(&self) -> (r: bool)
        ensures
            r == valid_token_id(self@),
    {
        let length = self.bytes.len();
        if length < 10 || length > 17 {
            return false;
        }
        let ticker_len = length - 7;
        let mut i: usize = 0;
        while i < ticker_len
            invariant
                i <= ticker_len,
                ticker_len == self.bytes@.len() - 7,
                10 <= self.bytes@.len() <= 17,
                forall|j: int| 0 <= j < i ==> is_ticker_byte(#[trigger] self.bytes@[j]),
            decreases ticker_len - i,
        {
            let c = self.bytes[i];
            if !((UPPER_A <= c && c <= UPPER_Z) || (DIGIT_0 <= c && c <= DIGIT_9)) {
                return false;
            }
            i = i + 1;
        }
        if self.bytes[ticker_len] != DASH {
            return false;
        }
        let mut k: usize = length - 6;
        while k < length
            invariant
                length - 6 <= k <= length,
                length == self.bytes@.len(),
                10 <= self.bytes@.len() <= 17,
                forall|j: int| length - 6 <= j < k ==> is_random_byte(#[trigger] self.bytes@[j]),
            decreases length - k,
        {
            let c = self.bytes[k];
            if !((LOWER_A <= c && c <= LOWER_Z) || (DIGIT_0 <= c && c <= DIGIT_9)) {
                return false;
            }
            k = k + 1;
        }
        true
    }
}

impl PartialEq for TokenIdentifier {
    fn eq(&self, other: &TokenIdentifier) -> (r: bool) {
        let r = self.bytes == other.bytes;
        proof {
            if r {
                assert(self.bytes@ =~= other.bytes@);
            }
        }
        r
    }
}

impl Eq for TokenIdentifier {}

impl vstd::std_specs::cmp::PartialEqSpecImpl for TokenIdentifier {
    open spec fn obeys_eq_spec() -> bool {
        true
    }

    open spec fn eq_spec(&self, other: &TokenIdentifier) -> bool {
        self.bytes@ == other.bytes@
    }
}

} // verus!
