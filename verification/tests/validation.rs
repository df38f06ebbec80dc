use amp_signer::signer::error::{ErrorKind, SignerError};
use amp_signer::signer::validation::{check_hex, validate_unsigned};

#[test]
fn well_formed_text_passes() {
    assert_eq!(validate_unsigned("00"), Ok(()));
    assert_eq!(validate_unsigned("0200000001abcdef"), Ok(()));
    assert_eq!(validate_unsigned("ABCDEF"), Ok(()));
}

#[test]
fn empty_text_is_rejected() {
    assert_eq!(
        validate_unsigned(""),
        Err(SignerError::InvalidTransaction("Unsigned transaction hex cannot be empty".to_string()))
    );
}

#[test]
fn odd_length_text_is_rejected() {
    for text in ["a", "abc", "02000", "0200000001abcde"] {
        assert_eq!(
            validate_unsigned(text),
            Err(SignerError::InvalidTransaction("Unsigned transaction hex must have even length".to_string()))
        );
    }
}

#[test]
fn length_is_counted_in_bytes() {
    assert_eq!(validate_unsigned("\u{e9}"), Ok(()));
    assert_eq!(validate_unsigned("a\u{e9}").unwrap_err().kind(), ErrorKind::InvalidTransaction);
    assert_eq!(validate_unsigned("\u{20ac}").unwrap_err().kind(), ErrorKind::InvalidTransaction);
    assert_eq!(validate_unsigned("a\u{20ac}"), Ok(()));
}

#[test]
fn the_shared_checks_do_not_look_at_the_digits() {
    assert_eq!(validate_unsigned("zz"), Ok(()));
    assert_eq!(validate_unsigned("  "), Ok(()));
}

#[test]
fn hex_digits_of_either_case_pass() {
    assert_eq!(check_hex("0123456789abcdefABCDEF"), Ok(()));
    assert_eq!(check_hex(""), Ok(()));
}

#[test]
fn anything_but_hex_digits_is_an_encoding_error() {
    for text in ["zz", "0x00", "00 11", "g0", "0G", "/0", ":0", "@A", "`a", "\u{e9}", "00\u{20ac}", "0\n"] {
        assert_eq!(
            check_hex(text),
            Err(SignerError::EncodingError(
                "Unsigned transaction hex contains a character that is not a hexadecimal digit".to_string()
            ))
        );
    }
}

#[test]
fn failure_reports_kind_and_detail() {
    let failures = [
        (SignerError::InvalidTransaction("a".to_string()), ErrorKind::InvalidTransaction, "a"),
        (SignerError::RemoteSigningFailure("b".to_string()), ErrorKind::RemoteSigningFailure, "b"),
        (SignerError::WrappedLibraryError("c".to_string()), ErrorKind::WrappedLibraryError, "c"),
        (SignerError::EncodingError("d".to_string()), ErrorKind::EncodingError, "d"),
    ];
    for (failure, kind, detail) in failures {
        assert_eq!(failure.kind(), kind);
        assert_eq!(failure.detail(), detail);
        assert_eq!(failure.clone(), failure);
    }
}

#[test]
fn message_names_the_kind_then_the_detail() {
    assert_eq!(
        SignerError::InvalidTransaction("Unsigned transaction hex cannot be empty".to_string()).message(),
        "Invalid transaction: Unsigned transaction hex cannot be empty"
    );
    assert_eq!(SignerError::RemoteSigningFailure("timeout".to_string()).message(), "Remote signing failed: timeout");
    assert_eq!(SignerError::WrappedLibraryError("bad seed".to_string()).message(), "Key management error: bad seed");
    assert_eq!(SignerError::EncodingError(String::new()).message(), "Hex parsing error: ");
    assert_eq!(ErrorKind::InvalidTransaction.label(), "Invalid transaction");
    assert_eq!(ErrorKind::EncodingError.label(), "Hex parsing error");
}
