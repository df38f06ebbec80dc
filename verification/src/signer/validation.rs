//! The input checks that every backend applies before any work of its own.

use vstd::prelude::*;
use vstd::utf8::*;
use crate::signer::error::{ErrorKind, SignerError};

verus! {

/// The detail reported for an empty transaction.
pub open spec fn empty_input_detail() -> Seq<char> {
    "Unsigned transaction hex cannot be empty"@
}

/// The detail reported for a transaction of odd length.
pub open spec fn odd_length_detail() -> Seq<char> {
    "Unsigned transaction hex must have even length"@
}

/// The length of a text in bytes, which is what its hexadecimal digits are
/// counted in.
pub open spec fn byte_len(text: Seq<char>) -> nat {
    encode_utf8(text).len()
}

/// The failure with which a transaction text is rejected, or `None` where it
/// is accepted: an empty text first, then one whose length is odd.
pub open spec fn validation_failure(text: Seq<char>) -> Option<(ErrorKind, Seq<char>)> {
    if text.len() == 0 {
        Some((ErrorKind::InvalidTransaction, empty_input_detail()))
    } else if byte_len(text) % 2 != 0 {
        Some((ErrorKind::InvalidTransaction, odd_length_detail()))
    } else {
        None
    }
}

/// Whether a character is a hexadecimal digit, in either case.
pub open spec fn is_hex_digit(c: char) -> bool {
    ('0' <= c && c <= '9') || ('a' <= c && c <= 'f') || ('A' <= c && c <= 'F')
}

/// Whether a text is made of hexadecimal digits alone.
pub open spec fn is_hex_text(text: Seq<char>) -> bool {
    forall|i: int| 0 <= i < text.len() ==> is_hex_digit(#[trigger] text[i])
}

/// The detail reported for a text that holds something else than
/// hexadecimal digits.
pub open spec fn malformed_hex_detail() -> Seq<char> {
    "Unsigned transaction hex contains a character that is not a hexadecimal digit"@
}

/// The failure with which a text is rejected as malformed hexadecimal, or
/// `None` where every character is a hexadecimal digit.
pub open spec fn encoding_failure(text: Seq<char>) -> Option<(ErrorKind, Seq<char>)> {
    if is_hex_text(text) {
        None
    } else {
        Some((ErrorKind::EncodingError, malformed_hex_detail()))
    }
}

/// Whether a transaction text passes the shared checks.
pub open spec fn well_formed(text: Seq<char>) -> bool {
    validation_failure(text) is None
}

/// Checks an unsigned transaction before it is handed to any backend.
pub fn validate_unsigned(unsigned_tx: &str) -> (r: Result<(), SignerError>)
    ensures
        match r {
            Ok(_) => validation_failure(unsigned_tx@) is None,
            Err(e) => validation_failure(unsigned_tx@) == Some(e@),
        },
{
    if unsigned_tx.is_empty() {
        return Err(SignerError::InvalidTransaction("Unsigned transaction hex cannot be empty".to_string()));
    }
    if unsigned_tx.as_bytes().len() % 2 != 0 {
        return Err(SignerError::InvalidTransaction("Unsigned transaction hex must have even length".to_string()));
    }
    Ok(())
}

fn is_hex_byte(b: u8) -> (r: bool)
    ensures
        r == is_hex_digit(b as char),
{
    (48 <= b && b <= 57) || (97 <= b && b <= 102) || (65 <= b && b <= 70)
}

/// Checks that a transaction text is made of hexadecimal digits alone. A
/// backend that decodes the text itself applies this after the shared checks.
pub fn check_hex(unsigned_tx: &str) -> (r: Result<(), SignerError>)
    ensures
        match r {
            Ok(_) => encoding_failure(unsigned_tx@) is None,
            Err(e) => encoding_failure(unsigned_tx@) == Some(e@),
        },
{
    if !unsigned_tx.is_ascii() {
        proof {
            let at = choose|i: int| 0 <= i < unsigned_tx@.len() && !('\0' <= #[trigger] unsigned_tx@[i] && unsigned_tx@[i] <= '\u{7f}');
            assert(!is_hex_digit(unsigned_tx@[at]));
        }
        return Err(SignerError::EncodingError(
            "Unsigned transaction hex contains a character that is not a hexadecimal digit".to_string(),
        ));
    }
    let bytes = unsigned_tx.as_bytes();
    proof {
        is_ascii_chars_encode_utf8(unsigned_tx@);
    }
    let mut i: usize = 0;
    while i < bytes.len()
        invariant
            i <= bytes.len(),
            bytes@.len() == unsigned_tx@.len(),
            is_ascii_chars(unsigned_tx@),
            forall|j: int| 0 <= j < bytes@.len() ==> unsigned_tx@[j] as u8 == #[trigger] bytes@[j],
            forall|j: int| 0 <= j < i ==> is_hex_digit(#[trigger] unsigned_tx@[j]),
        decreases bytes.len() - i,
    {
        if !is_hex_byte(bytes[i]) {
            proof {
                assert(unsigned_tx@[i as int] as u8 == bytes@[i as int]);
                assert(!is_hex_digit(unsigned_tx@[i as int]));
            }
            return Err(SignerError::EncodingError(
                "Unsigned transaction hex contains a character that is not a hexadecimal digit".to_string(),
            ));
        }
        proof {
            assert(unsigned_tx@[i as int] as u8 == bytes@[i as int]);
        }
        i += 1;
    }
    Ok(())
}

} // verus!
