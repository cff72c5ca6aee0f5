use echidnabot::dispatcher::echidna_client::{
    check_http_status, parse_proof_status, proof_result_from, prover_status_from,
    prover_wire_name, unwrap_reply, ProverStatus, VerifyProofData,
};
use echidnabot::dispatcher::{ProofStatus, ProverKind};
use echidnabot::error::Error;
use echidnabot::scheduler::retry::is_transient_error;

#[test]
fn test_prover_file_extensions() {
    assert!(ProverKind::Metamath.file_extensions().contains(&".mm"));
    assert!(ProverKind::Lean.file_extensions().contains(&".lean"));
    assert!(ProverKind::Coq.file_extensions().contains(&".v"));
}

#[test]
fn test_prover_from_extension() {
    assert_eq!(ProverKind::from_extension(".mm"), Some(ProverKind::Metamath));
    assert_eq!(ProverKind::from_extension("lean"), Some(ProverKind::Lean));
    assert_eq!(ProverKind::from_extension(".xyz"), None);
}

#[test]
fn test_prover_tier() {
    assert_eq!(ProverKind::Metamath.tier(), 2);
    assert_eq!(ProverKind::Lean.tier(), 1);
    assert_eq!(ProverKind::Hol4.tier(), 3);
}

#[test]
fn extension_table_is_complete() {
    let table = [
        (ProverKind::Coq, ".v"),
        (ProverKind::Lean, ".lean"),
        (ProverKind::Isabelle, ".thy"),
        (ProverKind::Agda, ".agda"),
        (ProverKind::Z3, ".smt2"),
        (ProverKind::Cvc5, ".smt2"),
        (ProverKind::Metamath, ".mm"),
        (ProverKind::HolLight, ".ml"),
        (ProverKind::Mizar, ".miz"),
        (ProverKind::Pvs, ".pvs"),
        (ProverKind::Acl2, ".lisp"),
        (ProverKind::Hol4, ".sml"),
    ];
    for (prover, ext) in table {
        assert_eq!(prover.extension(), ext);
        assert_eq!(prover.file_extensions(), vec![ext]);
        assert!(1 <= prover.tier() && prover.tier() <= 3);
    }
    assert_eq!(ProverKind::all().len(), 12);
}

#[test]
fn from_extension_is_injective_on_recognised_extensions() {
    let recognised = ["v", "lean", "thy", "agda", "smt2", "mm", "ml", "miz", "pvs", "lisp", "sml"];
    for a in recognised {
        for b in recognised {
            let (ka, kb) = (ProverKind::from_extension(a), ProverKind::from_extension(b));
            assert!(ka.is_some());
            if a != b {
                assert_ne!(ka, kb);
            }
        }
    }
    assert_eq!(ProverKind::from_extension("smt2"), Some(ProverKind::Z3));
    assert_eq!(ProverKind::from_extension("..V"), Some(ProverKind::Coq));
    assert_eq!(ProverKind::from_extension(""), None);
    assert_eq!(ProverKind::from_extension("."), None);
}

#[test]
fn status_words_map_case_insensitively() {
    for w in ["VERIFIED", "pass", "Success"] {
        assert_eq!(parse_proof_status(w), ProofStatus::Verified);
    }
    for w in ["FAILED", "fail"] {
        assert_eq!(parse_proof_status(w), ProofStatus::Failed);
    }
    assert_eq!(parse_proof_status("timeout"), ProofStatus::Timeout);
    assert_eq!(parse_proof_status("Error"), ProofStatus::Error);
    assert_eq!(parse_proof_status("whatever"), ProofStatus::Unknown);
    assert_eq!(parse_proof_status(""), ProofStatus::Unknown);
}

#[test]
fn wire_names_are_lower_case() {
    assert_eq!(prover_wire_name(ProverKind::HolLight), "hollight");
    assert_eq!(prover_wire_name(ProverKind::Cvc5), "cvc5");
    assert_eq!(prover_wire_name(ProverKind::Metamath), "metamath");
}

#[test]
fn http_status_is_judged() {
    assert!(check_http_status(200, "OK").is_ok());
    assert!(check_http_status(204, "No Content").is_ok());
    assert!(check_http_status(299, "").is_ok());
    match check_http_status(503, "Service Unavailable") {
        Err(Error::Echidna(m)) => assert_eq!(m, "ECHIDNA returned status 503 Service Unavailable"),
        _ => panic!("expected an error of the service"),
    }
    match check_http_status(404, "Not Found") {
        Err(Error::Echidna(m)) => assert_eq!(m, "ECHIDNA returned status 404 Not Found"),
        _ => panic!("expected an error of the service"),
    }
    assert!(check_http_status(199, "").is_err());
    assert!(check_http_status(300, "Multiple Choices").is_err());
}

#[test]
fn server_errors_and_rate_limits_are_transient() {
    for (status, reason) in [
        (500u16, "Internal Server Error"),
        (502, "Bad Gateway"),
        (503, "Service Unavailable"),
        (599, "<unknown status code>"),
        (429, "Too Many Requests"),
    ] {
        let error = check_http_status(status, reason).unwrap_err();
        assert!(is_transient_error(&error));
    }
    for (status, reason) in [(400u16, "Bad Request"), (401, "Unauthorized"), (404, "Not Found"), (302, "Found")] {
        let error = check_http_status(status, reason).unwrap_err();
        assert!(!is_transient_error(&error));
    }
    let malformed = unwrap_reply::<u32>(None, None).unwrap_err();
    assert!(!is_transient_error(&malformed));
    let refused = unwrap_reply::<u32>(Some(1), Some(vec!["syntax error".to_string()])).unwrap_err();
    assert!(!is_transient_error(&refused));
}

#[test]
fn reply_envelope_is_opened() {
    assert_eq!(unwrap_reply(Some(7u32), None).unwrap(), 7);
    match unwrap_reply(Some(7u32), Some(vec!["a".to_string(), "b".to_string()])) {
        Err(Error::Echidna(m)) => assert_eq!(m, "a, b"),
        _ => panic!("errors win over data"),
    }
    match unwrap_reply::<u32>(None, None) {
        Err(Error::Echidna(m)) => assert_eq!(m, "No data in response"),
        _ => panic!("a reply without data is an error"),
    }
    match unwrap_reply::<u32>(None, Some(vec![])) {
        Err(Error::Echidna(m)) => assert_eq!(m, ""),
        _ => panic!("an empty list of errors is still an error"),
    }
}

#[test]
fn proof_result_carries_the_payload() {
    let r = proof_result_from(VerifyProofData {
        status: "pass".to_string(),
        message: "m".to_string(),
        prover_output: "o".to_string(),
        duration_ms: 12,
        artifacts: vec!["a.vo".to_string()],
    });
    assert_eq!(r.status, ProofStatus::Verified);
    assert_eq!(r.message, "m");
    assert_eq!(r.prover_output, "o");
    assert_eq!(r.duration_ms, 12);
    assert_eq!(r.artifacts, vec!["a.vo".to_string()]);
}

#[test]
fn prover_status_is_read() {
    assert_eq!(prover_status_from(false, Some(true)), ProverStatus::Unavailable);
    assert_eq!(prover_status_from(true, Some(true)), ProverStatus::Available);
    assert_eq!(prover_status_from(true, Some(false)), ProverStatus::Unavailable);
    assert_eq!(prover_status_from(true, None), ProverStatus::Unknown);
}
