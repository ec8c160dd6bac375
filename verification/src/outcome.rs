//! The uniform outcome of a sync operation.

use vstd::prelude::*;

verus! {

/// The outcome of one sync operation. A failure has no room for a payload,
/// so none can be returned with one.
#[derive(PartialEq, Eq, Debug)]
pub enum SyncResult {
    /// The operation completed; `data` is the document a download fetched.
    Success { message: String, data: Option<String> },
    /// The operation stopped; `message` says where and why.
    Failure { message: String },
}

/// A [`SyncResult`] as the caller's three fields, over mathematical text.
pub struct Report {
    pub success: bool,
    pub message: Seq<char>,
    pub data: Option<Seq<char>>,
}

impl Report {
    /// A payload is present only on success.
    pub open spec fn wf(self) -> bool {
        self.data is Some ==> self.success
    }

    /// The report of a success that carries no payload.
    pub open spec fn succeeded(message: Seq<char>) -> Report {
        Report { success: true, message, data: None }
    }

    /// The report of a success that carries `content`.
    pub open spec fn delivered(message: Seq<char>, content: Seq<char>) -> Report {
        Report { success: true, message, data: Some(content) }
    }

    /// The report of a failure with exactly this message.
    pub open spec fn refused(message: Seq<char>) -> Report {
        Report { success: false, message, data: None }
    }

    /// The report of a failure whose message is `prefix` followed by `detail`.
    pub open spec fn failed(prefix: Seq<char>, detail: Seq<char>) -> Report {
        Report { success: false, message: prefix + detail, data: None }
    }
}

impl View for SyncResult {
    type V = Report;

    open spec fn view(&self) -> Report {
        match self {
            SyncResult::Success { message, data } => Report {
                success: true,
                message: message@,
                data: match data {
                    Some(content) => Some(content@),
                    None => None,
                },
            },
            SyncResult::Failure { message } => Report {
                success: false,
                message: message@,
                data: None,
            },
        }
    }
}

impl SyncResult {
    /// A success with the given message and no payload.
    pub fn succeeded(message: &str) -> (r: SyncResult)
        ensures
            r@ == Report::succeeded(message@),
    {
        SyncResult::Success { message: String::from_str(message), data: None }
    }

    /// A success with the given message that carries `content`, untouched.
    pub fn delivered(message: &str, content: String) -> (r: SyncResult)
        ensures
            r@ == Report::delivered(message@, content@),
    {
        SyncResult::Success { message: String::from_str(message), data: Some(content) }
    }

    /// A failure with exactly this message.
    pub fn refused(message: &str) -> (r: SyncResult)
        ensures
            r@ == Report::refused(message@),
    {
        SyncResult::Failure { message: String::from_str(message) }
    }

    /// A failure whose message is `prefix` followed by `detail`.
    pub fn failed(prefix: &str, detail: &str) -> (r: SyncResult)
        ensures
            r@ == Report::failed(prefix@, detail@),
    {
        let mut message = String::from_str(prefix);
        message.append(detail);
        SyncResult::Failure { message }
    }

    /// Whether the operation fully completed.
    pub fn success(&self) -> (b: bool)
        ensures
            b == self@.success,
    {
        match self {
            SyncResult::Success { .. } => true,
            SyncResult::Failure { .. } => false,
        }
    }

    /// The human-readable description of the outcome.
    pub fn message(&self) -> (m: &String)
        ensures
            m@ == self@.message,
    {
        match self {
            SyncResult::Success { message, .. } => message,
            SyncResult::Failure { message } => message,
        }
    }

    /// The payload, present only after a successful download.
    pub fn data(&self) -> (d: Option<&String>)
        ensures
            d is Some <==> self@.data is Some,
            d matches Some(content) ==> self@.data == Some(content@),
            d is Some ==> self@.success,
    {
        match self {
            SyncResult::Success { data: Some(content), .. } => Some(content),
            _ => None,
        }
    }
}

/// A failure carries no payload, whatever produced the result.
pub proof fn lemma_failure_carries_no_data(r: SyncResult)
    ensures
        r@.wf(),
        !r@.success ==> r@.data is None,
{
}

} // verus!
