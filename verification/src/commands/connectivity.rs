//! The connectivity tester: a probe of a pod's address over HTTP,
//! repeated with a growing pause while it fails.

use vstd::prelude::*;
use vstd::string::StringExecFns;

use crate::errors::{
    classify_transport_error, failure, result_view, ErrorKind, ErrorView, NetInspectError,
    NetInspectResult, TransportFailure,
};
use crate::text::{join, join3, decimal, decimal_text, text_of};

verus! {

/// What a connectivity probe is to do: one HTTP GET, within the two
/// time limits.
#[derive(Debug, Clone, PartialEq, Eq)]
pub struct ProbePlan {
    /// The address to get.
    pub url: String,
    /// The seconds allowed for the whole request.
    pub timeout_secs: u64,
    /// The seconds allowed for establishing the connection.
    pub connect_timeout_secs: u64,
}

/// The model of a [`ProbePlan`].
pub struct ProbePlanView {
    pub url: Seq<char>,
    pub timeout_secs: u64,
    pub connect_timeout_secs: u64,
}

impl View for ProbePlan {
    type V = ProbePlanView;

    open spec fn view(&self) -> ProbePlanView {
        ProbePlanView {
            url: self.url@,
            timeout_secs: self.timeout_secs,
            connect_timeout_secs: self.connect_timeout_secs,
        }
    }
}

/// What came back from a connectivity probe.
#[derive(Debug, Clone, PartialEq, Eq)]
pub enum HttpReply {
    /// The pod answered with this status code.
    Status(u16),
    /// The request failed before any status arrived.
    Failed(TransportFailure),
    /// The HTTP client could not be set up; the text says why.
    ClientUnavailable(String),
}

/// What the connectivity tester wants next.
#[derive(Debug, PartialEq, Eq)]
pub enum ConnectivityStep {
    /// Wait `delay_ms` milliseconds, carry out the plan, and come
    /// back with the outcome appended to the outcomes so far. This is
    /// attempt number `attempt`, counting from 1.
    Probe { plan: ProbePlan, attempt: u32, delay_ms: u64 },
    /// The test is over, with this outcome.
    Finished(NetInspectResult<()>),
}

/// The model of a [`ConnectivityStep`].
pub enum ConnectivityStepView {
    Probe { plan: ProbePlanView, attempt: u32, delay_ms: u64 },
    Finished(Result<(), ErrorView>),
}

impl View for ConnectivityStep {
    type V = ConnectivityStepView;

    open spec fn view(&self) -> ConnectivityStepView {
        match self {
            ConnectivityStep::Probe { plan, attempt, delay_ms } => ConnectivityStepView::Probe {
                plan: plan@,
                attempt: *attempt,
                delay_ms: *delay_ms,
            },
            ConnectivityStep::Finished(outcome) => ConnectivityStepView::Finished(
                result_view(*outcome),
            ),
        }
    }
}

/// The address a pod is probed at: plain HTTP on port 80.
pub open spec fn probe_url(pod_ip: Seq<char>) -> Seq<char> {
    "http://"@ + pod_ip + ":80"@
}

/// The plan of a regular probe: ten seconds in all, five to connect.
pub open spec fn standard_plan(pod_ip: Seq<char>) -> ProbePlanView {
    ProbePlanView { url: probe_url(pod_ip), timeout_secs: 10, connect_timeout_secs: 5 }
}

/// The plan of a quick probe: three seconds in all, two to connect.
pub open spec fn quick_plan(pod_ip: Seq<char>) -> ProbePlanView {
    ProbePlanView { url: probe_url(pod_ip), timeout_secs: 3, connect_timeout_secs: 2 }
}

/// The reason phrase that the HTTP library knows for a status code.
pub uninterp spec fn canonical_reason_of(code: u16) -> Option<Seq<char>>;

/// The reason phrase of a status code: the one the HTTP library knows,
/// for the codes from 100 to 999 that it can represent.
pub open spec fn reason_of(code: u16) -> Option<Seq<char>> {
    if 100 <= code <= 999 {
        canonical_reason_of(code)
    } else {
        None
    }
}

/// A status code that reports success.
pub open spec fn is_success(code: u16) -> bool {
    200 <= code < 300
}

/// How a status is shown: its code, and its reason phrase if it has
/// one.
pub open spec fn status_text(code: u16, reason: Option<Seq<char>>) -> Seq<char> {
    decimal_text(code as nat) + " "@ + (match reason {
        Some(phrase) => phrase,
        None => "<unknown status code>"@,
    })
}

/// The message of the error that stands for a status other than
/// success.
pub open spec fn status_failure_text(code: u16, reason: Option<Seq<char>>) -> Seq<char> {
    "HTTP "@ + status_text(code, reason) + " - "@ + (match reason {
        Some(phrase) => phrase,
        None => "Unknown error"@,
    })
}

/// What a status means, given its reason phrase: a code from 200 to
/// 299 is success, any other a connectivity error that carries the
/// status.
pub open spec fn status_verdict(code: u16, reason: Option<Seq<char>>) -> Result<(), ErrorView> {
    if is_success(code) {
        Ok(())
    } else {
        failure(ErrorKind::NetworkConnectivity, status_failure_text(code, reason))
    }
}

/// What the outcome of one probe means.
pub open spec fn http_verdict(reply: HttpReply) -> Result<(), ErrorView> {
    match reply {
        HttpReply::Status(code) => status_verdict(code, reason_of(code)),
        HttpReply::Failed(cause) => Err(classify_transport_error(cause)),
        HttpReply::ClientUnavailable(detail) => failure(
            ErrorKind::Runtime,
            "Failed to create HTTP client: "@ + detail@,
        ),
    }
}

/// The pause before the attempt that follows the given number of
/// failed attempts: one second for each of them.
pub open spec fn backoff_ms(failed_attempts: nat) -> nat {
    1000 * failed_attempts
}

/// The step of the connectivity test after the outcomes of the
/// attempts made so far: the first attempt at once; after a failed
/// attempt, as long as attempts remain, the next one after the
/// backoff; else the outcome of the last attempt.
pub open spec fn retry_step(pod_ip: Seq<char>, max_attempts: u32, outcomes: Seq<HttpReply>)
    -> ConnectivityStepView {
    let made = outcomes.len();
    if made == 0 {
        ConnectivityStepView::Probe { plan: standard_plan(pod_ip), attempt: 1, delay_ms: 0 }
    } else if http_verdict(outcomes.last()) is Ok || made >= max_attempts {
        ConnectivityStepView::Finished(http_verdict(outcomes.last()))
    } else {
        ConnectivityStepView::Probe {
            plan: standard_plan(pod_ip),
            attempt: (made + 1) as u32,
            delay_ms: backoff_ms(made) as u64,
        }
    }
}

/// The schedule of the connectivity test: while every attempt so far
/// has failed and attempts remain, the next attempt follows after one
/// second for each failed attempt; the first success, or the failure
/// of the last attempt allowed, ends the test with that outcome.
pub proof fn lemma_retry_schedule(pod_ip: Seq<char>, max_attempts: u32, outcomes: Seq<HttpReply>)
    requires
        max_attempts >= 1,
        outcomes.len() <= max_attempts,
        forall|i: int| 0 <= i < outcomes.len() - 1 ==> http_verdict(#[trigger] outcomes[i]) is Err,
    ensures
        forall|made: int|
            0 <= made < outcomes.len() ==> #[trigger] retry_step(
                pod_ip,
                max_attempts,
                outcomes.take(made),
            ) == (ConnectivityStepView::Probe {
                plan: standard_plan(pod_ip),
                attempt: (made + 1) as u32,
                delay_ms: (1000 * made) as u64,
            }),
        outcomes.len() > 0 && (http_verdict(outcomes.last()) is Ok || outcomes.len()
            == max_attempts) ==> retry_step(pod_ip, max_attempts, outcomes)
            == ConnectivityStepView::Finished(http_verdict(outcomes.last())),
{
    assert forall|made: int| 0 <= made < outcomes.len() implies #[trigger] retry_step(
        pod_ip,
        max_attempts,
        outcomes.take(made),
    ) == (ConnectivityStepView::Probe {
        plan: standard_plan(pod_ip),
        attempt: (made + 1) as u32,
        delay_ms: (1000 * made) as u64,
    }) by {}
}

/// The reason phrase of a status code from 100 to 999, as
/// `canonical_reason` of `reqwest::StatusCode` gives it for the status
/// that `from_u16` makes of the code. The phrase comes from a fixed
/// table in the HTTP library; this library reads it and does not know
/// its entries.
#[verifier::external_body]
fn canonical_reason(code: u16) -> (reason: Option<&'static str>)
    requires
        100 <= code <= 999,
    ensures
        text_of(reason) == canonical_reason_of(code),
{
    match reqwest::StatusCode::from_u16(code) {
        Ok(status) => status.canonical_reason(),
        Err(_) => None,
    }
}

impl ProbePlan {
    /// The plan of a regular probe of the pod at `pod_ip`.
    pub fn standard(pod_ip: &str) -> (plan: ProbePlan)
        ensures
            plan@ == standard_plan(pod_ip@),
    {
        ProbePlan { url: join3("http://", pod_ip, ":80"), timeout_secs: 10, connect_timeout_secs: 5 }
    }

    /// The plan of a quick probe of the pod at `pod_ip`.
    pub fn quick(pod_ip: &str) -> (plan: ProbePlan)
        ensures
            plan@ == quick_plan(pod_ip@),
    {
        ProbePlan { url: join3("http://", pod_ip, ":80"), timeout_secs: 3, connect_timeout_secs: 2 }
    }
}

/// The reason phrase of a status code, if the HTTP library knows one.
pub fn status_reason(code: u16) -> (reason: Option<&'static str>)
    ensures
        text_of(reason) == reason_of(code),
{
    if 100 <= code && code <= 999 {
        canonical_reason(code)
    } else {
        None
    }
}

/// What a status means, given its reason phrase.
pub fn interpret_status(code: u16, reason: Option<&str>) -> (outcome: NetInspectResult<()>)
    ensures
        result_view(outcome) == status_verdict(code, text_of(reason)),
{
    if 200 <= code && code < 300 {
        return Ok(());
    }
    let mut text = String::from_str("HTTP ");
    let number = decimal(code as u64);
    let mut shown = number;
    shown.append(" ");
    match reason {
        Some(phrase) => shown.append(phrase),
        None => shown.append("<unknown status code>"),
    }
    text.append(shown.as_str());
    text.append(" - ");
    match reason {
        Some(phrase) => text.append(phrase),
        None => text.append("Unknown error"),
    }
    Err(NetInspectError::NetworkConnectivity(text))
}

/// What the outcome of one probe means: success for a status from 200
/// to 299, else the error that stands for the status or the failure.
pub fn test_connectivity(reply: &HttpReply) -> (outcome: NetInspectResult<()>)
    ensures
        result_view(outcome) == http_verdict(*reply),
{
    match reply {
        HttpReply::Status(code) => interpret_status(*code, status_reason(*code)),
        HttpReply::Failed(cause) => Err(NetInspectError::from_transport_failure(cause)),
        HttpReply::ClientUnavailable(detail) => Err(
            NetInspectError::Runtime(join("Failed to create HTTP client: ", detail.as_str())),
        ),
    }
}

/// One step of the connectivity test of the pod at `pod_ip`, given
/// the outcomes of the attempts made so far, in order.
pub fn test_connectivity_with_retries(pod_ip: &str, max_retries: u32, outcomes: &[HttpReply]) -> (step:
    ConnectivityStep)
    requires
        max_retries >= 1,
    ensures
        step@ == retry_step(pod_ip@, max_retries, outcomes@),
{
    let made = outcomes.len();
    if made == 0 {
        return ConnectivityStep::Probe { plan: ProbePlan::standard(pod_ip), attempt: 1, delay_ms: 0 };
    }
    let last = test_connectivity(&outcomes[made - 1]);
    if last.is_ok() || made >= max_retries as usize {
        return ConnectivityStep::Finished(last);
    }
    let attempt: u32 = made as u32 + 1;
    let delay_ms: u64 = 1000 * (made as u64);
    ConnectivityStep::Probe { plan: ProbePlan::standard(pod_ip), attempt, delay_ms }
}

} // verus!
