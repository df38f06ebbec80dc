//! What holds of signing on every input, proved from the contracts of the
//! functions that do it.

use vstd::prelude::*;
use vstd::utf8::{encode_utf8, is_ascii_chars, is_ascii_chars_encode_utf8};
use crate::json::{bool_member, encoded_member, text_member, Json};
use crate::rpc::{sign_method, sign_request_view, RequestView};
use crate::signer::error::ErrorKind;
use crate::signer::local::LocalKeySigner;
use crate::signer::node::{incomplete_detail, missing_hex_detail, ElementsRpcSigner};
use crate::signer::validation::{
    byte_len, empty_input_detail, is_hex_digit, is_hex_text, odd_length_detail, validation_failure, well_formed,
};
use crate::signer::{begin_outcome, rpc_calls, Signer, SignerKind, TaskView};

verus! {

/// Whether `part` stands in `text` at position `at`.
pub open spec fn occurs_at(text: Seq<char>, part: Seq<char>, at: int) -> bool {
    0 <= at && at + part.len() <= text.len() && text.subrange(at, at + part.len()) == part
}

/// Whether `part` stands somewhere in `text`.
pub open spec fn contains_text(text: Seq<char>, part: Seq<char>) -> bool {
    exists|at: int| #[trigger] occurs_at(text, part, at)
}

/// Hexadecimal text takes one byte for each digit, so its length in bytes is
/// its number of digits.
pub proof fn lemma_hex_text_byte_len(text: Seq<char>)
    requires
        is_hex_text(text),
    ensures
        byte_len(text) == text.len(),
{
    assert(is_ascii_chars(text)) by {
        assert forall|i: int| 0 <= i < text.len() implies '\0' <= #[trigger] text[i] <= '\u{7f}' by {
            assert(is_hex_digit(text[i]));
        }
    }
    is_ascii_chars_encode_utf8(text);
}

/// A text of odd length in bytes is not empty.
pub proof fn lemma_odd_byte_len_is_not_empty(text: Seq<char>)
    requires
        byte_len(text) % 2 == 1,
    ensures
        text.len() > 0,
{
    if text.len() == 0 {
        assert(encode_utf8(text).len() == 0);
    }
}

/// The detail for an empty input says that it cannot be empty.
pub proof fn lemma_empty_detail_names_cause()
    ensures
        contains_text(empty_input_detail(), "cannot be empty"@),
{
    reveal_strlit("Unsigned transaction hex cannot be empty");
    reveal_strlit("cannot be empty");
    assert(empty_input_detail().subrange(25, 40) =~= "cannot be empty"@);
    assert(occurs_at(empty_input_detail(), "cannot be empty"@, 25));
}

/// The detail for an input of odd length speaks of even length.
pub proof fn lemma_odd_detail_names_cause()
    ensures
        contains_text(odd_length_detail(), "even length"@),
{
    reveal_strlit("Unsigned transaction hex must have even length");
    reveal_strlit("even length");
    assert(odd_length_detail().subrange(35, 46) =~= "even length"@);
    assert(occurs_at(odd_length_detail(), "even length"@, 35));
}

/// The detail for a response without signed text says what is missing.
pub proof fn lemma_missing_detail_names_cause()
    ensures
        contains_text(missing_hex_detail(), "missing"@),
        contains_text(missing_hex_detail(), "hex"@),
{
    reveal_strlit("Node signing result missing 'hex' field");
    reveal_strlit("missing");
    reveal_strlit("hex");
    assert(missing_hex_detail().subrange(20, 27) =~= "missing"@);
    assert(occurs_at(missing_hex_detail(), "missing"@, 20));
    assert(missing_hex_detail().subrange(29, 32) =~= "hex"@);
    assert(occurs_at(missing_hex_detail(), "hex"@, 29));
}

/// A text ends with what was appended to it.
pub proof fn lemma_contains_suffix(prefix: Seq<char>, suffix: Seq<char>)
    ensures
        contains_text(prefix + suffix, suffix),
{
    let whole = prefix + suffix;
    let at = prefix.len() as int;
    assert(whole.subrange(at, at + suffix.len()) =~= suffix);
    assert(occurs_at(whole, suffix, at));
}

/// Signing a non-empty hexadecimal text with an even number of digits on the
/// remote backend issues exactly one call on the channel: the wallet's
/// signing call, with that text as its sole argument. This holds whatever
/// the channel then answers.
pub proof fn law_hex_input_issues_one_call(
    signer: ElementsRpcSigner,
    unsigned_tx: Seq<char>,
    reply: Result<Json, Seq<char>>,
)
    requires
        is_hex_text(unsigned_tx),
        unsigned_tx.len() > 0,
        unsigned_tx.len() % 2 == 0,
    ensures
        well_formed(unsigned_tx),
        signer.exchange(unsigned_tx, reply).calls == seq![
            RequestView { method: sign_method(), params: seq![unsigned_tx] },
        ],
        rpc_calls(signer.backend(), unsigned_tx) == signer.exchange(unsigned_tx, reply).calls,
{
    lemma_hex_text_byte_len(unsigned_tx);
}

/// Signing the empty text fails on every backend as an invalid transaction
/// whose detail says that it cannot be empty, and issues no call.
pub proof fn law_empty_input_is_rejected(kind: SignerKind, unsigned_tx: Seq<char>)
    requires
        unsigned_tx.len() == 0,
    ensures
        begin_outcome(kind, unsigned_tx) == Err::<TaskView, (ErrorKind, Seq<char>)>(
            (ErrorKind::InvalidTransaction, empty_input_detail()),
        ),
        contains_text(empty_input_detail(), "cannot be empty"@),
        rpc_calls(kind, unsigned_tx) == Seq::<RequestView>::empty(),
{
    lemma_empty_detail_names_cause();
}

/// No backend hands out a task for an input that fails the shared checks:
/// it returns the failure of those checks instead.
pub proof fn law_no_task_without_validation(kind: SignerKind, unsigned_tx: Seq<char>)
    ensures
        begin_outcome(kind, unsigned_tx) is Ok ==> well_formed(unsigned_tx),
        validation_failure(unsigned_tx) matches Some(e) ==> begin_outcome(kind, unsigned_tx) == Err::<
            TaskView,
            (ErrorKind, Seq<char>),
        >(e),
{
}

/// On the remote backend an input that fails the shared checks issues no
/// call, whatever the channel would have answered, and the outcome is the
/// failure of those checks.
pub proof fn law_rejected_input_issues_no_call(
    signer: ElementsRpcSigner,
    unsigned_tx: Seq<char>,
    reply: Result<Json, Seq<char>>,
)
    requires
        !well_formed(unsigned_tx),
    ensures
        signer.exchange(unsigned_tx, reply).calls == Seq::<RequestView>::empty(),
        signer.exchange(unsigned_tx, reply).outcome == Err::<Seq<char>, (ErrorKind, Seq<char>)>(
            validation_failure(unsigned_tx)->0,
        ),
{
}

/// Signing a text whose length in bytes is odd fails on every backend as an
/// invalid transaction whose detail speaks of even length, and issues no
/// call.
pub proof fn law_odd_length_is_rejected(kind: SignerKind, unsigned_tx: Seq<char>)
    requires
        byte_len(unsigned_tx) % 2 == 1,
    ensures
        begin_outcome(kind, unsigned_tx) == Err::<TaskView, (ErrorKind, Seq<char>)>(
            (ErrorKind::InvalidTransaction, odd_length_detail()),
        ),
        contains_text(odd_length_detail(), "even length"@),
        rpc_calls(kind, unsigned_tx) == Seq::<RequestView>::empty(),
{
    lemma_odd_byte_len_is_not_empty(unsigned_tx);
    lemma_odd_detail_names_cause();
}

/// A text of plain ASCII characters, such as hexadecimal digits, with an odd
/// number of them is of odd length in bytes, and so is rejected.
pub proof fn law_odd_ascii_text_is_rejected(kind: SignerKind, unsigned_tx: Seq<char>)
    requires
        is_ascii_chars(unsigned_tx),
        unsigned_tx.len() % 2 == 1,
    ensures
        begin_outcome(kind, unsigned_tx) == Err::<TaskView, (ErrorKind, Seq<char>)>(
            (ErrorKind::InvalidTransaction, odd_length_detail()),
        ),
{
    is_ascii_chars_encode_utf8(unsigned_tx);
}

/// Signing a non-empty hexadecimal text with an even number of digits on the
/// local backend hands it to the key-management routine as it stands, and
/// issues no call on any channel.
pub proof fn law_hex_input_reaches_the_routine(signer: LocalKeySigner, unsigned_tx: Seq<char>)
    requires
        is_hex_text(unsigned_tx),
        unsigned_tx.len() > 0,
        unsigned_tx.len() % 2 == 0,
    ensures
        signer.input_for(unsigned_tx) == Ok::<Seq<char>, (ErrorKind, Seq<char>)>(unsigned_tx),
        begin_outcome(signer.backend(), unsigned_tx) == Ok::<TaskView, (ErrorKind, Seq<char>)>(
            TaskView::LocalSign(unsigned_tx),
        ),
        rpc_calls(signer.backend(), unsigned_tx) == Seq::<RequestView>::empty(),
{
    lemma_hex_text_byte_len(unsigned_tx);
}

/// Signing never succeeds in part. The remote backend returns signed text
/// exactly where the channel answered with a response that holds that text
/// and reports that every input was signed; in every other case it fails.
pub proof fn law_success_needs_a_complete_response(
    signer: ElementsRpcSigner,
    reply: Result<Json, Seq<char>>,
    signed: Seq<char>,
)
    ensures
        signer.outcome_for(reply) == Ok::<Seq<char>, (ErrorKind, Seq<char>)>(signed) <==> (reply matches Ok(
            response,
        ) && text_member(response, "hex"@) == Some(signed) && bool_member(response, "complete"@) == Some(
            true,
        )),
{
}

/// A response that holds signed text and reports that every input was signed
/// yields that text.
pub proof fn law_complete_response_yields_signed_text(
    signer: ElementsRpcSigner,
    response: Json,
    signed: Seq<char>,
)
    requires
        text_member(response, "hex"@) == Some(signed),
        bool_member(response, "complete"@) == Some(true),
    ensures
        signer.outcome_for(Ok(response)) == Ok::<Seq<char>, (ErrorKind, Seq<char>)>(signed),
{
}

/// A response that holds signed text but does not report that every input
/// was signed fails as an invalid transaction. Where the response has an
/// `errors` member, the detail holds its JSON text.
pub proof fn law_incomplete_response_reports_errors(
    signer: ElementsRpcSigner,
    response: Json,
    errors: Seq<char>,
)
    requires
        text_member(response, "hex"@) is Some,
        bool_member(response, "complete"@) != Some(true),
        encoded_member(response, "errors"@) == Some(errors),
    ensures
        signer.outcome_for(Ok(response)) == Err::<Seq<char>, (ErrorKind, Seq<char>)>(
            (ErrorKind::InvalidTransaction, incomplete_detail(Some(errors))),
        ),
        contains_text(incomplete_detail(Some(errors)), errors),
{
    lemma_contains_suffix(
        "Transaction signing incomplete. The node's wallet may be missing required keys. Errors: "@,
        errors,
    );
}

/// A response without signed text fails as an invalid transaction whose
/// detail says that the `hex` member is missing, whatever else it holds.
pub proof fn law_missing_hex_is_rejected(signer: ElementsRpcSigner, response: Json)
    requires
        text_member(response, "hex"@) is None,
    ensures
        signer.outcome_for(Ok(response)) == Err::<Seq<char>, (ErrorKind, Seq<char>)>(
            (ErrorKind::InvalidTransaction, missing_hex_detail()),
        ),
        contains_text(missing_hex_detail(), "missing"@),
        contains_text(missing_hex_detail(), "hex"@),
{
    lemma_missing_detail_names_cause();
}

/// A handle and its clone sign alike: for the same input they issue the same
/// calls, and for the same answer of the channel they come to the same
/// outcome.
pub proof fn law_clones_sign_alike(
    handle: ElementsRpcSigner,
    copy: ElementsRpcSigner,
    unsigned_tx: Seq<char>,
    reply: Result<Json, Seq<char>>,
)
    requires
        copy@ == handle@,
    ensures
        copy.request_for(unsigned_tx) == handle.request_for(unsigned_tx),
        copy.outcome_for(reply) == handle.outcome_for(reply),
        copy.exchange(unsigned_tx, reply) == handle.exchange(unsigned_tx, reply),
{
}

/// What the capability hands out tells nothing of what the handle holds:
/// two remote signers with different descriptors make the same request for
/// the same text, and two local signers with different key material hand
/// out the same task.
pub proof fn law_tasks_reveal_nothing_of_the_handle(
    one_remote: ElementsRpcSigner,
    other_remote: ElementsRpcSigner,
    one_local: LocalKeySigner,
    other_local: LocalKeySigner,
    unsigned_tx: Seq<char>,
)
    ensures
        one_remote.request_for(unsigned_tx) == other_remote.request_for(unsigned_tx),
        begin_outcome(one_remote.backend(), unsigned_tx) == begin_outcome(other_remote.backend(), unsigned_tx),
        one_local.input_for(unsigned_tx) == other_local.input_for(unsigned_tx),
        begin_outcome(one_local.backend(), unsigned_tx) == begin_outcome(other_local.backend(), unsigned_tx),
{
}

/// The kind of a handle tells a remote signer from a local one, whichever
/// two handles are compared.
pub proof fn law_kind_tells_backends_apart(remote: ElementsRpcSigner, local: LocalKeySigner)
    ensures
        remote.backend() == SignerKind::RemoteDelegated,
        local.backend() == SignerKind::LocalKey,
        remote.backend() != local.backend(),
{
}

} // verus!
