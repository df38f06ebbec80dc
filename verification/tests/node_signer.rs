use amp_signer::rpc::{ElementsRpc, RpcRequest};
use amp_signer::signer::error::{ErrorKind, SignerError};
use amp_signer::signer::node::{ElementsRpcSigner, SignResponse};
use amp_signer::signer::{SignTask, Signer, SignerKind};

fn test_signer() -> ElementsRpcSigner {
    ElementsRpcSigner::new(ElementsRpc::new(
        "http://localhost:18884".to_string(),
        "testuser".to_string(),
        "testpass".to_string(),
    ))
}

fn json(text: &str) -> serde_json::Value {
    serde_json::from_str(text).unwrap()
}

#[test]
fn test_elements_rpc_signer_creation() {
    let rpc = ElementsRpc::new(
        "http://localhost:18884".to_string(),
        "testuser".to_string(),
        "testpass".to_string(),
    );

    let signer = ElementsRpcSigner::new(rpc.clone());

    assert_eq!(signer.rpc().base_url(), "http://localhost:18884");
}

#[test]
fn test_elements_rpc_signer_clone() {
    let rpc = ElementsRpc::new(
        "http://localhost:18884".to_string(),
        "testuser".to_string(),
        "testpass".to_string(),
    );

    let signer1 = ElementsRpcSigner::new(rpc);
    let signer2 = signer1.clone();

    assert_eq!(signer1.rpc().base_url(), signer2.rpc().base_url());
}

#[test]
fn test_signer_trait_object() {
    let rpc = ElementsRpc::new(
        "http://localhost:18884".to_string(),
        "testuser".to_string(),
        "testpass".to_string(),
    );

    let signer = ElementsRpcSigner::new(rpc);

    let _trait_obj: &dyn Signer = &signer;
}

#[test]
fn test_as_any_downcast() {
    let rpc = ElementsRpc::new(
        "http://localhost:18884".to_string(),
        "testuser".to_string(),
        "testpass".to_string(),
    );

    let signer = ElementsRpcSigner::new(rpc);
    let trait_obj: &dyn Signer = &signer;

    let recovered = trait_obj.kind() == SignerKind::RemoteDelegated;
    assert!(recovered);
}

#[test]
fn test_sign_transaction_validates_input() {
    let rpc = ElementsRpc::new(
        "http://localhost:18884".to_string(),
        "testuser".to_string(),
        "testpass".to_string(),
    );

    let signer = ElementsRpcSigner::new(rpc);

    let result = signer.sign_with("", |_request: &RpcRequest| panic!("no call is due"));
    assert!(result.is_err());
    match result.unwrap_err() {
        SignerError::InvalidTransaction(msg) => {
            assert!(msg.contains("cannot be empty"));
        }
        other => panic!("Expected InvalidTransaction error, got: {:?}", other),
    }

    let result = signer.sign_with("abc", |_request: &RpcRequest| panic!("no call is due"));
    assert!(result.is_err());
    match result.unwrap_err() {
        SignerError::InvalidTransaction(msg) => {
            assert!(msg.contains("even length"));
        }
        other => panic!("Expected InvalidTransaction error, got: {:?}", other),
    }
}

#[test]
fn descriptor_keeps_url_and_credentials() {
    let rpc = ElementsRpc::new("http://node:7041".to_string(), "alice".to_string(), "s3cret".to_string());
    assert_eq!(rpc.base_url(), "http://node:7041");
    assert_eq!(rpc.username(), "alice");
    assert_eq!(rpc.password(), "s3cret");
    let copy = rpc.clone();
    assert_eq!(copy.base_url(), "http://node:7041");
    assert_eq!(copy.username(), "alice");
    assert_eq!(copy.password(), "s3cret");
}

#[test]
fn request_is_the_wallet_call_with_the_text_as_sole_argument() {
    let signer = test_signer();
    let request = signer.sign_request("0200abcd").unwrap();
    assert_eq!(request.method(), "signrawtransactionwithwallet");
    assert_eq!(request.params(), &vec!["0200abcd".to_string()]);
    assert_eq!(request.unsigned_tx(), "0200abcd");
}

#[test]
fn request_does_not_depend_on_the_descriptor() {
    let here = test_signer();
    let there = ElementsRpcSigner::new(ElementsRpc::new(
        "http://elsewhere:1".to_string(),
        "other".to_string(),
        "secret".to_string(),
    ));
    let a = here.sign_request("beef").unwrap();
    let b = there.sign_request("beef").unwrap();
    assert_eq!(a.method(), b.method());
    assert_eq!(a.params(), b.params());
    assert!(!format!("{:?}", a).contains("testpass"));
    assert!(!format!("{:?}", a).contains("testuser"));
}

#[test]
fn sign_issues_exactly_one_call_for_hex_input() {
    let signer = test_signer();
    let mut calls: Vec<(String, Vec<String>)> = Vec::new();
    let result = signer.sign_with("00ff", |request: &RpcRequest| {
        calls.push((request.method().to_string(), request.params().clone()));
        Ok(json(r#"{"hex": "ABCD", "complete": true}"#))
    });
    assert_eq!(result, Ok("ABCD".to_string()));
    assert_eq!(calls, vec![("signrawtransactionwithwallet".to_string(), vec!["00ff".to_string()])]);
}

#[test]
fn sign_issues_one_call_even_when_the_channel_fails() {
    let signer = test_signer();
    let mut calls: u32 = 0;
    let result = signer.sign_with("00ff", |_request: &RpcRequest| {
        calls += 1;
        Err("connection refused".to_string())
    });
    assert_eq!(calls, 1);
    assert_eq!(
        result,
        Err(SignerError::RemoteSigningFailure(
            "Node wallet signing failed: connection refused. Ensure wallet is unlocked and contains required keys."
                .to_string()
        ))
    );
}

#[test]
fn empty_input_is_rejected_with_exact_detail() {
    let signer = test_signer();
    assert_eq!(
        signer.sign_request("").unwrap_err(),
        SignerError::InvalidTransaction("Unsigned transaction hex cannot be empty".to_string())
    );
}

#[test]
fn odd_length_input_is_rejected_with_exact_detail() {
    let signer = test_signer();
    assert_eq!(
        signer.sign_request("abc").unwrap_err(),
        SignerError::InvalidTransaction("Unsigned transaction hex must have even length".to_string())
    );
    assert_eq!(
        signer.sign_request("a").unwrap_err(),
        SignerError::InvalidTransaction("Unsigned transaction hex must have even length".to_string())
    );
}

#[test]
fn remote_backend_leaves_the_digits_to_the_node() {
    let signer = test_signer();
    let request = signer.sign_request("zz").unwrap();
    assert_eq!(request.params(), &vec!["zz".to_string()]);
}

#[test]
fn complete_response_yields_signed_text() {
    let signer = test_signer();
    let reply = Ok(json(r#"{"hex": "ABCD", "complete": true}"#));
    assert_eq!(signer.sign_outcome(reply), Ok("ABCD".to_string()));
}

#[test]
fn incomplete_response_reports_its_errors() {
    let signer = test_signer();
    let reply = Ok(json(
        r#"{"hex": "ABCD", "complete": false, "errors": [{"txid": "00aa", "vout": 1, "error": "Input not found"}]}"#,
    ));
    let error = signer.sign_outcome(reply).unwrap_err();
    assert_eq!(error.kind(), ErrorKind::InvalidTransaction);
    assert!(error.detail().contains(r#"[{"error":"Input not found","txid":"00aa","vout":1}]"#));
    assert_eq!(
        error.detail(),
        "Transaction signing incomplete. The node's wallet may be missing required keys. Errors: [{\"error\":\"Input not found\",\"txid\":\"00aa\",\"vout\":1}]"
    );
}

#[test]
fn incomplete_response_without_errors_says_unknown() {
    let signer = test_signer();
    let reply = Ok(json(r#"{"hex": "ABCD", "complete": false}"#));
    assert_eq!(
        signer.sign_outcome(reply),
        Err(SignerError::InvalidTransaction(
            "Transaction signing incomplete. The node's wallet may be missing required keys. Errors: Unknown errors"
                .to_string()
        ))
    );
}

#[test]
fn missing_complete_fails_closed() {
    let signer = test_signer();
    let reply = Ok(json(r#"{"hex": "ABCD"}"#));
    let error = signer.sign_outcome(reply).unwrap_err();
    assert_eq!(error.kind(), ErrorKind::InvalidTransaction);
    assert!(error.detail().ends_with("Errors: Unknown errors"));
}

#[test]
fn complete_that_is_not_a_boolean_fails_closed() {
    let signer = test_signer();
    let reply = Ok(json(r#"{"hex": "ABCD", "complete": "true", "errors": "none"}"#));
    let error = signer.sign_outcome(reply).unwrap_err();
    assert_eq!(error.kind(), ErrorKind::InvalidTransaction);
    assert!(error.detail().ends_with("Errors: \"none\""));
}

#[test]
fn response_without_hex_is_rejected() {
    let signer = test_signer();
    let reply = Ok(json(r#"{"complete": true}"#));
    let error = signer.sign_outcome(reply).unwrap_err();
    match &error {
        SignerError::InvalidTransaction(msg) => {
            assert!(msg.contains("missing"));
            assert!(msg.contains("hex"));
        }
        other => panic!("Expected InvalidTransaction error, got: {:?}", other),
    }
    assert_eq!(error.detail(), "Node signing result missing 'hex' field");
}

#[test]
fn hex_that_is_not_text_is_rejected() {
    let signer = test_signer();
    for body in [r#"{"hex": 12, "complete": true}"#, r#"{"hex": null, "complete": true}"#, r#"["hex"]"#, r#""hex""#, "null"] {
        assert_eq!(
            signer.sign_outcome(Ok(json(body))),
            Err(SignerError::InvalidTransaction("Node signing result missing 'hex' field".to_string()))
        );
    }
}

#[test]
fn missing_hex_wins_over_incomplete() {
    let signer = test_signer();
    let reply = Ok(json(r#"{"complete": false, "errors": ["x"]}"#));
    assert_eq!(
        signer.sign_outcome(reply),
        Err(SignerError::InvalidTransaction("Node signing result missing 'hex' field".to_string()))
    );
}

#[test]
fn transport_failure_is_a_remote_signing_failure() {
    let signer = test_signer();
    let error = signer.sign_outcome(Err("401 Unauthorized".to_string())).unwrap_err();
    assert_eq!(error.kind(), ErrorKind::RemoteSigningFailure);
    assert_eq!(
        error.detail(),
        "Node wallet signing failed: 401 Unauthorized. Ensure wallet is unlocked and contains required keys."
    );
}

#[test]
fn clones_issue_identical_calls_and_reach_identical_results() {
    let handle = test_signer();
    let copy = handle.clone();
    let body = r#"{"hex": "ABCD", "complete": false, "errors": ["locked"]}"#;

    let mut seen_by_handle: Vec<(String, Vec<String>)> = Vec::new();
    let first = handle.sign_with("c0ffee", |request: &RpcRequest| {
        seen_by_handle.push((request.method().to_string(), request.params().clone()));
        Ok(json(body))
    });
    let mut seen_by_copy: Vec<(String, Vec<String>)> = Vec::new();
    let second = copy.sign_with("c0ffee", |request: &RpcRequest| {
        seen_by_copy.push((request.method().to_string(), request.params().clone()));
        Ok(json(body))
    });

    assert_eq!(seen_by_handle.len(), 1);
    assert_eq!(seen_by_handle, seen_by_copy);
    assert_eq!(first, second);
    assert_eq!(copy.rpc().base_url(), "http://localhost:18884");
    assert_eq!(copy.rpc().username(), "testuser");
    assert_eq!(copy.rpc().password(), "testpass");
}

#[test]
fn begin_sign_of_the_remote_backend_hands_out_the_call() {
    let signer = test_signer();
    let handle: &dyn Signer = &signer;
    match handle.begin_sign("abcd").unwrap() {
        SignTask::RemoteCall(request) => {
            assert_eq!(request.method(), "signrawtransactionwithwallet");
            assert_eq!(request.params(), &vec!["abcd".to_string()]);
        }
        other => panic!("expected a call, got: {:?}", other),
    }
    assert_eq!(
        handle.begin_sign("").unwrap_err(),
        SignerError::InvalidTransaction("Unsigned transaction hex cannot be empty".to_string())
    );
    assert_eq!(
        handle.begin_sign("abc").unwrap_err(),
        SignerError::InvalidTransaction("Unsigned transaction hex must have even length".to_string())
    );
}

#[test]
fn response_members_are_read_by_type() {
    let response = SignResponse::read(&json(
        r#"{"hex": "ABCD", "complete": true, "errors": [1, {"a": "b"}, null, "x"]}"#,
    ));
    assert_eq!(
        response,
        SignResponse {
            hex: Some("ABCD".to_string()),
            complete: Some(true),
            errors: Some(r#"[1,{"a":"b"},null,"x"]"#.to_string()),
        }
    );

    let response = SignResponse::read(&json(r#"{"hex": true, "complete": "ABCD"}"#));
    assert_eq!(response, SignResponse { hex: None, complete: None, errors: None });

    let response = SignResponse::read(&json(r#"{"hex": "", "complete": false, "errors": "hex"}"#));
    assert_eq!(
        response,
        SignResponse { hex: Some(String::new()), complete: Some(false), errors: Some("\"hex\"".to_string()) }
    );
}

#[test]
fn outcome_of_a_response_by_cases() {
    let signed = || Some("ABCD".to_string());
    assert_eq!(
        SignResponse { hex: signed(), complete: Some(true), errors: None }.outcome(),
        Ok("ABCD".to_string())
    );
    assert_eq!(
        SignResponse { hex: signed(), complete: Some(true), errors: Some("[]".to_string()) }.outcome(),
        Ok("ABCD".to_string())
    );
    assert_eq!(
        SignResponse { hex: signed(), complete: Some(false), errors: Some("[\"e\"]".to_string()) }.outcome(),
        Err(SignerError::InvalidTransaction(
            "Transaction signing incomplete. The node's wallet may be missing required keys. Errors: [\"e\"]"
                .to_string()
        ))
    );
    assert_eq!(
        SignResponse { hex: signed(), complete: None, errors: None }.outcome(),
        Err(SignerError::InvalidTransaction(
            "Transaction signing incomplete. The node's wallet may be missing required keys. Errors: Unknown errors"
                .to_string()
        ))
    );
    assert_eq!(
        SignResponse { hex: None, complete: Some(true), errors: None }.outcome(),
        Err(SignerError::InvalidTransaction("Node signing result missing 'hex' field".to_string()))
    );
}
