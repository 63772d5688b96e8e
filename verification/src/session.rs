//! One attested execution of the transition engine: the orchestrator
//! submits, polls the collaborator's status on a fixed interval, and on
//! success retrieves the attestation and locally re-verifies it against the
//! known program identity.  The decisions of that loop stand here; the
//! sleeping and the network calls stay outside the library.

use vstd::prelude::*;

use crate::attest::{decode_journal, journal_of, receipt_decodes, receipt_verifies, receipt_verify};

verus! {

/// A failure surfaced by the orchestration protocol.
#[derive(Clone, Debug)]
pub enum SessionError {
    /// The collaborator reported an explicit failure or an unknown status;
    /// carries the collaborator's status and error text.
    ProofSessionFailure(String, String),
    /// Locally re-verifying a retrieved attestation failed: a broken trust
    /// assumption, not a retryable fault.
    AttestationVerificationFailure,
}

/// One status report from the proving collaborator, reduced to the plain
/// fields the protocol decides on.
pub struct StatusReport {
    /// The reported status text, `RUNNING` and `SUCCEEDED` being the two
    /// the protocol acts on.
    pub status: String,
    /// Where to fetch the result; present when the status is `SUCCEEDED`.
    pub receipt_url: Option<String>,
    /// The collaborator's error text, when it reports a failure.
    pub error_msg: Option<String>,
}

/// The mathematical value of a status report.
pub ghost struct StatusReportView {
    pub status: Seq<char>,
    pub receipt_url: Option<Seq<char>>,
    pub error_msg: Option<Seq<char>>,
}

impl View for StatusReport {
    type V = StatusReportView;

    open spec fn view(&self) -> StatusReportView {
        StatusReportView {
            status: self.status@,
            receipt_url: match self.receipt_url {
                Some(url) => Some(url@),
                None => None,
            },
            error_msg: match self.error_msg {
                Some(msg) => Some(msg@),
                None => None,
            },
        }
    }
}

/// What the orchestrator must do next after one status report.
pub enum SessionStep {
    /// The collaborator is still running: poll again after the interval.
    KeepPolling,
    /// The collaborator succeeded: fetch the attestation at this location.
    FetchReceipt(String),
    /// The collaborator failed or answered with an unknown status; carries
    /// the status and its error text.
    Fail(String, String),
}

/// The mathematical value of a protocol step.
pub ghost struct SessionStepView {
    pub keep_polling: bool,
    pub fetch: Option<Seq<char>>,
    pub fail: Option<(Seq<char>, Seq<char>)>,
}

impl View for SessionStep {
    type V = SessionStepView;

    open spec fn view(&self) -> SessionStepView {
        match self {
            SessionStep::KeepPolling => SessionStepView {
                keep_polling: true,
                fetch: None,
                fail: None,
            },
            SessionStep::FetchReceipt(url) => SessionStepView {
                keep_polling: false,
                fetch: Some(url@),
                fail: None,
            },
            SessionStep::Fail(status, error) => SessionStepView {
                keep_polling: false,
                fetch: None,
                fail: Some((status@, error@)),
            },
        }
    }
}

/// The collaborator's error text, or nothing where it gave none.
pub open spec fn error_text(error_msg: Option<Seq<char>>) -> Seq<char> {
    match error_msg {
        Some(msg) => msg,
        None => Seq::empty(),
    }
}

/// The protocol's answer to one status report: keep polling while the
/// collaborator runs, fetch the attestation once it succeeds, and fail on
/// an explicit failure, an unknown status, or a success that names no
/// place to fetch from.
pub open spec fn session_step_of(report: StatusReportView) -> SessionStepView {
    if report.status == "RUNNING"@ {
        SessionStepView { keep_polling: true, fetch: None, fail: None }
    } else if report.status == "SUCCEEDED"@ {
        match report.receipt_url {
            Some(url) => SessionStepView { keep_polling: false, fetch: Some(url), fail: None },
            None => SessionStepView {
                keep_polling: false,
                fetch: None,
                fail: Some((report.status, error_text(report.error_msg))),
            },
        }
    } else {
        SessionStepView {
            keep_polling: false,
            fetch: None,
            fail: Some((report.status, error_text(report.error_msg))),
        }
    }
}

/// Decide the next step of one proof session from the collaborator's
/// status report.
pub fn session_step(report: &StatusReport) -> (r: SessionStep)
    ensures
        r@ == session_step_of(report@),
{
    let running: String = "RUNNING".to_owned();
    let succeeded: String = "SUCCEEDED".to_owned();
    if report.status == running {
        return SessionStep::KeepPolling;
    }
    if report.status == succeeded {
        if let Some(url) = &report.receipt_url {
            return SessionStep::FetchReceipt(url.clone());
        }
    }
    let error = match &report.error_msg {
        Some(msg) => msg.clone(),
        None => String::new(),
    };
    SessionStep::Fail(report.status.clone(), error)
}

/// Re-verify a retrieved attestation against the known program identity
/// and hand back its public journal; reject everything that does not
/// verify, with no partial result.
pub fn accept_attestation(receipt_bytes: &[u8], image_id: &[u8; 32]) -> (r: Result<
    Vec<u8>,
    SessionError,
>)
    ensures
        r is Ok <==> receipt_verifies(receipt_bytes@, image_id@),
        r matches Ok(journal) ==> journal@ == journal_of(receipt_bytes@),
        r is Err ==> (r matches Err(e) && e is AttestationVerificationFailure),
{
    if receipt_verify(receipt_bytes, image_id) {
        let journal = decode_journal(receipt_bytes).unwrap();
        Ok(journal)
    } else {
        Err(SessionError::AttestationVerificationFailure)
    }
}

} // verus!
