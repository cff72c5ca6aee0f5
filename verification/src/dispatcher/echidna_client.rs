//! What the client of the verification service decides: how provers are
//! named on the wire, and what a reply means.

use crate::dispatcher::{ProofResult, ProofStatus, ProverKind};
use crate::error::Error;
use crate::scheduler::retry::{names_transient_status, transient};
use crate::text::{decimal, digit, joined, push_decimal, push_joined, same_text, texts, uppercase};
use vstd::prelude::*;
use vstd::string::StringExecFns;

verus! {

/// Seconds allowed for a health probe.
pub const HEALTH_TIMEOUT_SECS: u64 = 5;

/// Seconds allowed for a prover status probe.
pub const STATUS_TIMEOUT_SECS: u64 = 10;

/// Seconds allowed for a call when the configuration names no other limit.
pub const DEFAULT_TIMEOUT_SECS: u64 = 30;

/// Availability of one prover at the verification service.
#[derive(Debug, Clone, Copy, PartialEq, Eq, Structural)]
pub enum ProverStatus {
    Available,
    Degraded,
    Unavailable,
    Unknown,
}

/// The payload of a successful `verifyProof` call.
#[derive(Debug)]
pub struct VerifyProofData {
    pub status: String,
    pub message: String,
    pub prover_output: String,
    pub duration_ms: u64,
    pub artifacts: Vec<String>,
}

/// The status that a status word of the service stands for, given the word
/// in upper case.
pub open spec fn status_of_word(upper: Seq<char>) -> ProofStatus {
    if upper == "VERIFIED"@ || upper == "PASS"@ || upper == "SUCCESS"@ {
        ProofStatus::Verified
    } else if upper == "FAILED"@ || upper == "FAIL"@ {
        ProofStatus::Failed
    } else if upper == "TIMEOUT"@ {
        ProofStatus::Timeout
    } else if upper == "ERROR"@ {
        ProofStatus::Error
    } else {
        ProofStatus::Unknown
    }
}

/// Reads a status word of the service, in any letter case.
pub fn parse_proof_status(s: &str) -> (r: ProofStatus)
    ensures
        r == status_of_word(uppercase(s@)),
{
    let upper = s.to_uppercase();
    let u = upper.as_str();
    if same_text(u, "VERIFIED") || same_text(u, "PASS") || same_text(u, "SUCCESS") {
        ProofStatus::Verified
    } else if same_text(u, "FAILED") || same_text(u, "FAIL") {
        ProofStatus::Failed
    } else if same_text(u, "TIMEOUT") {
        ProofStatus::Timeout
    } else if same_text(u, "ERROR") {
        ProofStatus::Error
    } else {
        ProofStatus::Unknown
    }
}

/// The name by which the service knows a prover.
pub open spec fn wire_name(p: ProverKind) -> Seq<char> {
    match p {
        ProverKind::Agda => "agda"@,
        ProverKind::Coq => "coq"@,
        ProverKind::Lean => "lean"@,
        ProverKind::Isabelle => "isabelle"@,
        ProverKind::Z3 => "z3"@,
        ProverKind::Cvc5 => "cvc5"@,
        ProverKind::Metamath => "metamath"@,
        ProverKind::HolLight => "hollight"@,
        ProverKind::Mizar => "mizar"@,
        ProverKind::Pvs => "pvs"@,
        ProverKind::Acl2 => "acl2"@,
        ProverKind::Hol4 => "hol4"@,
    }
}

/// The name by which the service knows a prover.
pub fn prover_wire_name(prover: ProverKind) -> (r: &'static str)
    ensures
        r@ == wire_name(prover),
{
    match prover {
        ProverKind::Agda => "agda",
        ProverKind::Coq => "coq",
        ProverKind::Lean => "lean",
        ProverKind::Isabelle => "isabelle",
        ProverKind::Z3 => "z3",
        ProverKind::Cvc5 => "cvc5",
        ProverKind::Metamath => "metamath",
        ProverKind::HolLight => "hollight",
        ProverKind::Mizar => "mizar",
        ProverKind::Pvs => "pvs",
        ProverKind::Acl2 => "acl2",
        ProverKind::Hol4 => "hol4",
    }
}

/// The status is of the success class.
pub open spec fn is_success_status(status: u16) -> bool {
    200 <= status <= 299
}

/// The status says that the failure may pass: a server error, or too many
/// requests.
pub open spec fn is_transient_status(status: u16) -> bool {
    500 <= status <= 599 || status == 429
}

/// The message of the error for a reply with a failing status: the status
/// code and its reason phrase.
pub open spec fn status_message(status: u16, reason: Seq<char>) -> Seq<char> {
    "ECHIDNA returned status "@ + decimal(status as nat) + " "@ + reason
}

/// Judges the HTTP status of a reply: a status outside the success class
/// is an error of the service that names the status. The error of a server
/// error or of too many requests is transient.
pub fn check_http_status(status: u16, reason: &str) -> (r: Result<(), Error>)
    ensures
        r is Ok <==> is_success_status(status),
        r is Err ==> r->Err_0 is Echidna && r->Err_0.text() == status_message(status, reason@),
        r is Err && is_transient_status(status) ==> transient(r->Err_0),
{
    if 200 <= status && status <= 299 {
        Ok(())
    } else {
        let mut m = String::from_str("ECHIDNA returned status ");
        push_decimal(&mut m, status as u64);
        m.append(" ");
        m.append(reason);
        proof {
            if is_transient_status(status) {
                law_server_errors_are_transient(status, reason@);
            }
        }
        Err(Error::Echidna(m))
    }
}

/// A reply with a server error or with the status for too many requests
/// gives an error that is retried.
pub proof fn law_server_errors_are_transient(status: u16, reason: Seq<char>)
    requires
        is_transient_status(status),
    ensures
        names_transient_status(status_message(status, reason)),
{
    let prefix = "ECHIDNA returned status "@;
    let m = status_message(status, reason);
    let n = status as nat;
    reveal_strlit("ECHIDNA returned status ");
    reveal_strlit("ECHIDNA returned status 5");
    reveal_strlit("ECHIDNA returned status 429");
    reveal_strlit(" ");
    assert(decimal(n) == decimal(n / 10).push(digit(n % 10)));
    assert(decimal(n / 10) == decimal(n / 100).push(digit((n / 10) % 10)));
    assert(decimal(n / 100) == seq![digit(n / 100)]);
    if status == 429 {
        assert(decimal(n) =~= seq!['4', '2', '9']);
        assert(m.subrange(0, prefix.len() as int + 3) =~= "ECHIDNA returned status 429"@);
    } else {
        assert(decimal(n)[0] == '5');
        assert(decimal(n).len() == 3);
        assert(m.subrange(0, prefix.len() as int + 1) =~= "ECHIDNA returned status 5"@);
    }
}

/// Opens the envelope of a reply. Reported errors win over data: their
/// messages are joined with `", "`. A reply with neither is an error too.
pub fn unwrap_reply<T>(data: Option<T>, errors: Option<Vec<String>>) -> (r: Result<T, Error>)
    ensures
        match errors {
            Some(list) => r is Err && r->Err_0 is Echidna && r->Err_0.text() == joined(
                texts(list@),
                ", "@,
            ),
            None => match data {
                Some(d) => r == Ok::<T, Error>(d),
                None => r is Err && r->Err_0 is Echidna && r->Err_0.text()
                    == "No data in response"@,
            },
        },
{
    match errors {
        Some(list) => {
            let mut m = String::new();
            push_joined(&mut m, &list, ", ");
            assert(m@ =~= joined(texts(list@), ", "@));
            Err(Error::Echidna(m))
        },
        None => match data {
            Some(d) => Ok(d),
            None => Err(Error::Echidna(String::from_str("No data in response"))),
        },
    }
}

/// Turns the payload of `verifyProof` into a proof result: the status word
/// is read, everything else is carried over.
pub fn proof_result_from(data: VerifyProofData) -> (r: ProofResult)
    ensures
        r.status == status_of_word(uppercase(data.status@)),
        r.message == data.message,
        r.prover_output == data.prover_output,
        r.duration_ms == data.duration_ms,
        r.artifacts == data.artifacts,
{
    let status = parse_proof_status(data.status.as_str());
    ProofResult {
        status,
        message: data.message,
        prover_output: data.prover_output,
        duration_ms: data.duration_ms,
        artifacts: data.artifacts,
    }
}

/// The availability that a reply to a status probe stands for. `available`
/// is the flag of the payload, if the reply carried one.
pub fn prover_status_from(success: bool, available: Option<bool>) -> (r: ProverStatus)
    ensures
        r == if !success {
            ProverStatus::Unavailable
        } else {
            match available {
                Some(true) => ProverStatus::Available,
                Some(false) => ProverStatus::Unavailable,
                None => ProverStatus::Unknown,
            }
        },
{
    if !success {
        return ProverStatus::Unavailable;
    }
    match available {
        Some(true) => ProverStatus::Available,
        Some(false) => ProverStatus::Unavailable,
        None => ProverStatus::Unknown,
    }
}

} // verus!
