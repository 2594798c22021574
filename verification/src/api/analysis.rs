//! The analysis endpoints' request and response shapes, the status
//! classification each endpoint's HTTP answers fall into, and the decision
//! step of the bounded wait-for-completion poll. The HTTP calls and the
//! sleeping are the caller's business.

use vstd::prelude::*;

use crate::progress::opt_text_equiv;
use crate::text::{contains_seq, str_contains};

verus! {

/// Seconds between two polls of the wait-for-completion flow.
pub const POLL_INTERVAL_SECS: u64 = 2;

/// The kind of analysis to run.
#[derive(Debug, Clone, Copy, PartialEq, Eq, Structural)]
pub enum AnalysisType {
    Quick,
    Detailed,
    Legal,
    Financial,
    Medical,
}

/// The server-side lifecycle state of an analysis.
#[derive(Debug, Clone, Copy, PartialEq, Eq, Structural)]
pub enum AnalysisStatus {
    Pending,
    Processing,
    Completed,
    Failed,
    Cancelled,
}

/// Optional switches of an analysis request.
#[derive(Debug, Clone, Copy, PartialEq, Eq)]
pub struct AnalysisOptions {
    pub priority: Option<i32>,
    pub extract_entities: Option<bool>,
    pub extract_dates: Option<bool>,
    pub extract_financial: Option<bool>,
    pub perform_risk_assessment: Option<bool>,
}

impl Default for AnalysisOptions {
    /// No switches set: the server's defaults apply.
    fn default() -> (r: Self)
        ensures
            r.priority is None,
            r.extract_entities is None,
            r.extract_dates is None,
            r.extract_financial is None,
            r.perform_risk_assessment is None,
    {
        AnalysisOptions {
            priority: None,
            extract_entities: None,
            extract_dates: None,
            extract_financial: None,
            perform_risk_assessment: None,
        }
    }
}

/// The body of a start-analysis request.
#[derive(Debug, Clone, Copy, PartialEq, Eq)]
pub struct StartAnalysisRequest {
    pub document_id: u128,
    pub analysis_type: AnalysisType,
    pub priority: Option<i32>,
    pub extract_entities: Option<bool>,
    pub extract_dates: Option<bool>,
    pub extract_financial: Option<bool>,
    pub perform_risk_assessment: Option<bool>,
}

/// Builds the start-analysis request body from the caller's options.
pub fn build_start_request(
    document_id: u128,
    analysis_type: AnalysisType,
    options: AnalysisOptions,
) -> (r: StartAnalysisRequest)
    ensures
        r.document_id == document_id,
        r.analysis_type == analysis_type,
        r.priority == options.priority,
        r.extract_entities == options.extract_entities,
        r.extract_dates == options.extract_dates,
        r.extract_financial == options.extract_financial,
        r.perform_risk_assessment == options.perform_risk_assessment,
{
    StartAnalysisRequest {
        document_id,
        analysis_type,
        priority: options.priority,
        extract_entities: options.extract_entities,
        extract_dates: options.extract_dates,
        extract_financial: options.extract_financial,
        perform_risk_assessment: options.perform_risk_assessment,
    }
}

/// Some extraction request mentions either of the two topics.
pub open spec fn spec_any_mentions(items: Seq<String>, a: Seq<char>, b: Seq<char>) -> bool {
    exists|i: int|
        0 <= i < items.len() && (contains_seq(#[trigger] items[i]@, a) || contains_seq(
            items[i]@,
            b,
        ))
}

/// The analysis type a list of extraction requests implies: legal topics
/// win, then financial, then medical; an empty list asks for the quick
/// analysis and anything else for the detailed one.
pub open spec fn spec_analysis_type_for(items: Seq<String>) -> AnalysisType {
    if spec_any_mentions(items, "legal"@, "risk"@) {
        AnalysisType::Legal
    } else if spec_any_mentions(items, "financial"@, "money"@) {
        AnalysisType::Financial
    } else if spec_any_mentions(items, "medical"@, "health"@) {
        AnalysisType::Medical
    } else if items.len() == 0 {
        AnalysisType::Quick
    } else {
        AnalysisType::Detailed
    }
}

/// Picks the analysis type from what the caller asked to extract.
pub fn determine_analysis_type(extract: &[String]) -> (r: AnalysisType)
    ensures
        r == spec_analysis_type_for(extract@),
{
    let n = extract.len();
    let mut wants_legal = false;
    let mut wants_financial = false;
    let mut wants_medical = false;
    let mut i: usize = 0;
    while i < n
        invariant
            n == extract@.len(),
            i <= n,
            wants_legal == (exists|j: int|
                0 <= j < i && (contains_seq(#[trigger] extract@[j]@, "legal"@) || contains_seq(
                    extract@[j]@,
                    "risk"@,
                ))),
            wants_financial == (exists|j: int|
                0 <= j < i && (contains_seq(#[trigger] extract@[j]@, "financial"@) || contains_seq(
                    extract@[j]@,
                    "money"@,
                ))),
            wants_medical == (exists|j: int|
                0 <= j < i && (contains_seq(#[trigger] extract@[j]@, "medical"@) || contains_seq(
                    extract@[j]@,
                    "health"@,
                ))),
        decreases n - i,
    {
        let item = &extract[i];
        if str_contains(item, "legal") || str_contains(item, "risk") {
            wants_legal = true;
        }
        if str_contains(item, "financial") || str_contains(item, "money") {
            wants_financial = true;
        }
        if str_contains(item, "medical") || str_contains(item, "health") {
            wants_medical = true;
        }
        i = i + 1;
    }
    if wants_legal {
        AnalysisType::Legal
    } else if wants_financial {
        AnalysisType::Financial
    } else if wants_medical {
        AnalysisType::Medical
    } else if n == 0 {
        AnalysisType::Quick
    } else {
        AnalysisType::Detailed
    }
}

/// The body of a successful start-analysis answer; timestamps are unix
/// seconds, the estimate is in seconds.
#[derive(Debug, Clone, Copy, PartialEq, Eq)]
pub struct StartAnalysisResponse {
    pub analysis_id: u128,
    pub document_id: u128,
    pub analysis_type: AnalysisType,
    pub status: AnalysisStatus,
    pub created_at: i64,
    pub estimated_completion_time: Option<i32>,
}

/// The body of a status answer; timestamps are unix seconds, progress a
/// percentage.
#[derive(Debug, PartialEq)]
pub struct AnalysisStatusResponse {
    pub id: u128,
    pub document_id: u128,
    pub status: AnalysisStatus,
    pub progress: Option<i32>,
    pub created_at: i64,
    pub started_at: Option<i64>,
    pub completed_at: Option<i64>,
    pub error_message: Option<String>,
}

/// A risk assessment attached to an analysis result.
#[derive(Debug, PartialEq)]
pub struct RiskAssessment {
    pub level: String,
    pub factors: Vec<String>,
    pub recommendations: Vec<String>,
}

/// A date extracted from the document, with its surrounding context.
#[derive(Debug, PartialEq)]
pub struct ExtractedDate {
    pub date: String,
    pub context: String,
    pub date_type: String,
}

/// How the start-analysis endpoint answered, by HTTP status.
#[derive(Debug, Clone, Copy, PartialEq, Eq, Structural)]
pub enum StartStatusClass {
    /// The body carries the new analysis record.
    Success,
    /// Authentication is required.
    Unauthorized,
    /// The analysis type is not allowed for this account.
    Forbidden,
    /// The document does not exist.
    NotFound,
    /// The rate limit was hit; try again later.
    RateLimited,
    /// Any other status: surfaced with its code.
    Other,
}

/// The class `classify_start_status` assigns to each status code.
pub open spec fn spec_start_status_class(status: u16) -> StartStatusClass {
    if status == 200 || status == 201 {
        StartStatusClass::Success
    } else if status == 401 {
        StartStatusClass::Unauthorized
    } else if status == 403 {
        StartStatusClass::Forbidden
    } else if status == 404 {
        StartStatusClass::NotFound
    } else if status == 429 {
        StartStatusClass::RateLimited
    } else {
        StartStatusClass::Other
    }
}

/// Classifies the start-analysis endpoint's HTTP status.
pub fn classify_start_status(status: u16) -> (c: StartStatusClass)
    ensures
        c == spec_start_status_class(status),
{
    if status == 200 || status == 201 {
        StartStatusClass::Success
    } else if status == 401 {
        StartStatusClass::Unauthorized
    } else if status == 403 {
        StartStatusClass::Forbidden
    } else if status == 404 {
        StartStatusClass::NotFound
    } else if status == 429 {
        StartStatusClass::RateLimited
    } else {
        StartStatusClass::Other
    }
}

/// How a status or result fetch answered, by HTTP status.
#[derive(Debug, Clone, Copy, PartialEq, Eq, Structural)]
pub enum FetchStatusClass {
    /// The body carries the record.
    Success,
    /// The analysis does not exist.
    NotFound,
    /// The result is not ready yet (result fetches only).
    InProgress,
    /// Any other status: surfaced with its code.
    Other,
}

/// The class `classify_fetch_status` assigns to each status code.
pub open spec fn spec_fetch_status_class(status: u16) -> FetchStatusClass {
    if status == 200 {
        FetchStatusClass::Success
    } else if status == 404 {
        FetchStatusClass::NotFound
    } else if status == 202 {
        FetchStatusClass::InProgress
    } else {
        FetchStatusClass::Other
    }
}

/// Classifies a status- or result-fetch HTTP status.
pub fn classify_fetch_status(status: u16) -> (c: FetchStatusClass)
    ensures
        c == spec_fetch_status_class(status),
{
    if status == 200 {
        FetchStatusClass::Success
    } else if status == 404 {
        FetchStatusClass::NotFound
    } else if status == 202 {
        FetchStatusClass::InProgress
    } else {
        FetchStatusClass::Other
    }
}

/// What one round of the wait-for-completion poll decides.
#[derive(Debug, PartialEq)]
pub enum PollOutcome {
    /// The analysis completed: fetch the result.
    FetchResult,
    /// The server reports the analysis failed, with its message if any.
    Failed(Option<String>),
    /// The analysis was cancelled.
    Cancelled,
    /// Still pending or processing: sleep one interval and poll again.
    ContinueWaiting,
    /// The caller's total timeout has passed with the outcome unknown —
    /// distinct from a server-reported failure.
    TimedOut,
}

/// Decides one round of the bounded wait-for-completion poll from the
/// latest status answer and the time spent so far. The timeout is checked
/// first, so a caller never polls past its deadline; a completed analysis
/// leads to the result fetch; a server-reported failure or cancellation is
/// surfaced as such; anything else waits one more interval.
pub fn poll_step(status: &AnalysisStatusResponse, elapsed_secs: u64, timeout_secs: u64) -> (r:
    PollOutcome)
    ensures
        elapsed_secs > timeout_secs ==> r is TimedOut,
        elapsed_secs <= timeout_secs ==> match status.status {
            AnalysisStatus::Completed => r is FetchResult,
            AnalysisStatus::Failed => r matches PollOutcome::Failed(m) && opt_text_equiv(
                &m,
                &status.error_message,
            ),
            AnalysisStatus::Cancelled => r is Cancelled,
            AnalysisStatus::Processing => r is ContinueWaiting,
            AnalysisStatus::Pending => r is ContinueWaiting,
        },
{
    if elapsed_secs > timeout_secs {
        return PollOutcome::TimedOut;
    }
    match status.status {
        AnalysisStatus::Completed => PollOutcome::FetchResult,
        AnalysisStatus::Failed => PollOutcome::Failed(
            match &status.error_message {
                Some(m) => Some(m.clone()),
                None => None,
            },
        ),
        AnalysisStatus::Cancelled => PollOutcome::Cancelled,
        AnalysisStatus::Processing => PollOutcome::ContinueWaiting,
        AnalysisStatus::Pending => PollOutcome::ContinueWaiting,
    }
}

} // verus!
