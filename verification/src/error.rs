//! Errors, and how the platform's diagnostic of a failed call is read.

use crate::platform::{
    request_view, Reply, Request, RequestView, FORMAT_MESSAGE_CAPACITY, FORMAT_MESSAGE_FLAGS,
};
use crate::text::{decimal, decode_utf16_lossy, push_decimal, utf16_lossy};
use vstd::prelude::*;

verus! {

/// Why a query, or the part of it on one monitor, failed.
#[derive(Clone, Debug, PartialEq, Eq)]
pub enum Error {
    /// A failure that the platform gave no diagnostic for.
    General(String),
    /// A failure with the platform's own diagnostic.
    WinApi(String),
}

/// The model of an [`Error`]: its kind and its text.
pub enum ErrorView {
    General(Seq<char>),
    WinApi(Seq<char>),
}

impl ErrorView {
    /// The text of the error.
    pub open spec fn text(self) -> Seq<char> {
        match self {
            ErrorView::General(text) => text,
            ErrorView::WinApi(text) => text,
        }
    }
}

impl View for Error {
    type V = ErrorView;

    open spec fn view(&self) -> ErrorView {
        match *self {
            Error::General(text) => ErrorView::General(text@),
            Error::WinApi(text) => ErrorView::WinApi(text@),
        }
    }
}

/// The model of an error that may be there.
pub open spec fn found_view(found: Option<Error>) -> Option<ErrorView> {
    match found {
        Some(error) => Some(error@),
        None => None,
    }
}

/// The text of the error that stands in for a diagnostic that the platform
/// did not have.
pub open spec fn missing_diagnostic() -> Seq<char> {
    "expected a platform error but none was available"@
}

/// The error to report where a diagnostic was looked for: the one found,
/// or a general one where there was none.
pub open spec fn expected(found: Option<ErrorView>) -> ErrorView {
    match found {
        Some(error) => error,
        None => ErrorView::General(missing_diagnostic()),
    }
}

/// The text that reports that the message of error `code` could not be
/// looked up, because of error `cause`.
pub open spec fn lookup_failure(cause: u32, code: u32) -> Seq<char> {
    "FormatMessageW failed with error '"@ + decimal(cause as nat)
        + "' while handling error '"@ + decimal(code as nat) + "'"@
}

impl Error {
    /// Begins to read the diagnostic of the platform call that failed last.
    /// The probe returned ends with the error, if the platform has one.
    pub fn maybe_winapi_error() -> (probe: ErrorProbe)
        ensures
            probe@ == ProbeView::start(),
    {
        ErrorProbe { stage: ProbeStage::ReadingCode, code: 0, found: None }
    }

    /// The error to report after a failed platform call, given what the
    /// probe of its diagnostic found.
    pub fn expect_winapi_error(found: Option<Error>) -> (error: Error)
        ensures
            error@ == expected(found_view(found)),
    {
        match found {
            Some(error) => error,
            None => Error::into_general_error("expected a platform error but none was available"),
        }
    }

    /// A general error with the given text.
    pub fn into_general_error(into_string: &str) -> (error: Error)
        ensures
            error@ == ErrorView::General(into_string@),
    {
        Error::General(String::from_str(into_string))
    }

    /// The text of the error.
    pub fn message(&self) -> (text: String)
        ensures
            text@ == self@.text(),
    {
        match self {
            Error::General(text) => text.clone(),
            Error::WinApi(text) => text.clone(),
        }
    }
}

/// How far the reading of a diagnostic has come.
#[derive(Clone, Copy, Debug, PartialEq, Eq)]
pub enum ProbeStage {
    /// Waiting for the last error code.
    ReadingCode,
    /// Waiting for the message of the code.
    Formatting,
    /// The lookup failed: waiting for the code of that failure.
    ReadingCause,
    /// Waiting for the last error code to be reset.
    Clearing,
    /// Nothing left to ask.
    Done,
}

/// The reading of the platform's diagnostic, one platform call at a time.
#[derive(Clone, Debug, PartialEq, Eq)]
pub struct ErrorProbe {
    stage: ProbeStage,
    code: u32,
    found: Option<Error>,
}

/// The model of an [`ErrorProbe`].
pub struct ProbeView {
    pub stage: ProbeStage,
    /// The error code under the lookup; zero before it is known.
    pub code: u32,
    pub found: Option<ErrorView>,
}

impl ProbeView {
    /// A probe that has read nothing yet.
    pub open spec fn start() -> ProbeView {
        ProbeView { stage: ProbeStage::ReadingCode, code: 0, found: None }
    }

    /// Whether the probe has nothing left to ask.
    pub open spec fn done(self) -> bool {
        self.stage == ProbeStage::Done
    }

    /// The call that the probe waits on.
    pub open spec fn pending(self) -> Option<RequestView> {
        match self.stage {
            ProbeStage::ReadingCode => Some(RequestView::LastError),
            ProbeStage::Formatting => Some(
                RequestView::FormatMessage {
                    code: self.code,
                    flags: FORMAT_MESSAGE_FLAGS,
                    capacity: FORMAT_MESSAGE_CAPACITY,
                },
            ),
            ProbeStage::ReadingCause => Some(RequestView::LastError),
            ProbeStage::Clearing => Some(RequestView::ClearLastError),
            ProbeStage::Done => None,
        }
    }

    /// Whether `reply` answers the call that the probe waits on.
    pub open spec fn accepts(self, reply: Reply) -> bool {
        match self.stage {
            ProbeStage::ReadingCode => reply is LastError,
            ProbeStage::Formatting => reply matches Reply::MessageFormatted { length, buffer }
                && length <= buffer@.len(),
            ProbeStage::ReadingCause => reply is LastError,
            ProbeStage::Clearing => reply is LastErrorCleared,
            ProbeStage::Done => false,
        }
    }

    /// The probe after a reply that it accepts.
    pub open spec fn advance(self, reply: Reply) -> ProbeView {
        match (self.stage, reply) {
            (ProbeStage::ReadingCode, Reply::LastError { code }) => if code == 0 {
                ProbeView { stage: ProbeStage::Done, code: 0, found: None }
            } else {
                ProbeView { stage: ProbeStage::Formatting, code, found: None }
            },
            (ProbeStage::Formatting, Reply::MessageFormatted { length, buffer }) => if length
                == 0 {
                ProbeView { stage: ProbeStage::ReadingCause, code: self.code, found: None }
            } else {
                ProbeView {
                    stage: ProbeStage::Clearing,
                    code: self.code,
                    found: Some(ErrorView::WinApi(utf16_lossy(buffer@.take(length as int)))),
                }
            },
            (ProbeStage::ReadingCause, Reply::LastError { code }) => ProbeView {
                stage: ProbeStage::Clearing,
                code: self.code,
                found: Some(ErrorView::WinApi(lookup_failure(code, self.code))),
            },
            (ProbeStage::Clearing, Reply::LastErrorCleared) => ProbeView {
                stage: ProbeStage::Done,
                code: self.code,
                found: self.found,
            },
            _ => self,
        }
    }

    /// The probe after `reply`: unchanged where it does not accept it.
    pub open spec fn next(self, reply: Reply) -> ProbeView {
        if self.accepts(reply) {
            self.advance(reply)
        } else {
            self
        }
    }
}

impl View for ErrorProbe {
    type V = ProbeView;

    closed spec fn view(&self) -> ProbeView {
        ProbeView { stage: self.stage, code: self.code, found: found_view(self.found) }
    }
}

/// Builds the text of `lookup_failure`.
fn lookup_failure_text(cause: u32, code: u32) -> (text: String)
    ensures
        text@ == lookup_failure(cause, code),
{
    let mut text = String::from_str("FormatMessageW failed with error '");
    push_decimal(&mut text, cause);
    text.append("' while handling error '");
    push_decimal(&mut text, code);
    text.append("'");
    text
}

impl ErrorProbe {
    /// Whether the probe has nothing left to ask.
    pub fn done(&self) -> (done: bool)
        ensures
            done == self@.done(),
    {
        matches!(self.stage, ProbeStage::Done)
    }

    /// The call that the probe waits on; none once it is done.
    pub fn request(&self) -> (request: Option<Request>)
        ensures
            request_view(request) == self@.pending(),
    {
        match self.stage {
            ProbeStage::ReadingCode => Some(Request::LastError),
            ProbeStage::Formatting => Some(
                Request::FormatMessage {
                    code: self.code,
                    flags: FORMAT_MESSAGE_FLAGS,
                    capacity: FORMAT_MESSAGE_CAPACITY,
                },
            ),
            ProbeStage::ReadingCause => Some(Request::LastError),
            ProbeStage::Clearing => Some(Request::ClearLastError),
            ProbeStage::Done => None,
        }
    }

    /// Whether `reply` answers the call that the probe waits on.
    pub fn accepts(&self, reply: &Reply) -> (accepted: bool)
        ensures
            accepted == self@.accepts(*reply),
    {
        match self.stage {
            ProbeStage::ReadingCode => matches!(reply, Reply::LastError { .. }),
            ProbeStage::Formatting => match reply {
                Reply::MessageFormatted { length, buffer } => *length as usize <= buffer.len(),
                _ => false,
            },
            ProbeStage::ReadingCause => matches!(reply, Reply::LastError { .. }),
            ProbeStage::Clearing => matches!(reply, Reply::LastErrorCleared),
            ProbeStage::Done => false,
        }
    }

    /// Takes the platform's reply. A reply that does not answer the pending
    /// call leaves the probe as it is.
    pub fn resume(self, reply: Reply) -> (next: ErrorProbe)
        ensures
            next@ == self@.next(reply),
    {
        if !self.accepts(&reply) {
            return self;
        }
        match (self.stage, reply) {
            (ProbeStage::ReadingCode, Reply::LastError { code }) => {
                if code == 0 {
                    ErrorProbe { stage: ProbeStage::Done, code: 0, found: None }
                } else {
                    ErrorProbe { stage: ProbeStage::Formatting, code, found: None }
                }
            },
            (ProbeStage::Formatting, Reply::MessageFormatted { length, buffer }) => {
                if length == 0 {
                    ErrorProbe { stage: ProbeStage::ReadingCause, code: self.code, found: None }
                } else {
                    let mut units = buffer;
                    units.truncate(length as usize);
                    let text = decode_utf16_lossy(&units);
                    ErrorProbe {
                        stage: ProbeStage::Clearing,
                        code: self.code,
                        found: Some(Error::WinApi(text)),
                    }
                }
            },
            (ProbeStage::ReadingCause, Reply::LastError { code }) => {
                let text = lookup_failure_text(code, self.code);
                ErrorProbe {
                    stage: ProbeStage::Clearing,
                    code: self.code,
                    found: Some(Error::WinApi(text)),
                }
            },
            (ProbeStage::Clearing, Reply::LastErrorCleared) => {
                ErrorProbe { stage: ProbeStage::Done, code: self.code, found: self.found }
            },
            _ => self,
        }
    }

    /// The error that the probe found, if any.
    pub fn into_found(self) -> (found: Option<Error>)
        ensures
            found_view(found) == self@.found,
    {
        self.found
    }
}

impl ProbeView {
    /// The probe after the replies, taken in their order.
    pub open spec fn run(self, replies: Seq<Reply>) -> ProbeView
        decreases replies.len(),
    {
        if replies.len() == 0 {
            self
        } else {
            self.next(replies[0]).run(replies.drop_first())
        }
    }

    /// Whether the probe is on its way to an error with the platform's
    /// diagnostic, or has found it.
    pub open spec fn finds_diagnostic(self) -> bool {
        match self.stage {
            ProbeStage::ReadingCode => false,
            ProbeStage::Formatting => true,
            ProbeStage::ReadingCause => true,
            ProbeStage::Clearing => self.found matches Some(ErrorView::WinApi(_)),
            ProbeStage::Done => self.found matches Some(ErrorView::WinApi(_)),
        }
    }
}

/// Once a probe is on its way to an error with a diagnostic, it stays so.
pub proof fn lemma_probe_keeps_diagnostic(probe: ProbeView, replies: Seq<Reply>)
    requires
        probe.finds_diagnostic(),
    ensures
        probe.run(replies).finds_diagnostic(),
    decreases replies.len(),
{
    if replies.len() != 0 {
        lemma_probe_keeps_diagnostic(probe.next(replies[0]), replies.drop_first());
    }
}

/// A probe that is done takes no reply.
pub proof fn lemma_probe_done(probe: ProbeView, replies: Seq<Reply>)
    requires
        probe.done(),
    ensures
        probe.run(replies) == probe,
    decreases replies.len(),
{
    if replies.len() != 0 {
        lemma_probe_done(probe, replies.drop_first());
    }
}

/// What a probe ends with depends on the last error code alone: where the
/// code is zero, the platform has no diagnostic, and the error to report is
/// the general one; where it is not, the error to report has the platform's
/// diagnostic, be it the message of the code or the report that the message
/// could not be looked up.
pub proof fn lemma_probe_outcome(code: u32, replies: Seq<Reply>)
    requires
        ProbeView::start().next(Reply::LastError { code }).run(replies).done(),
    ensures
        ({
            let end = ProbeView::start().next(Reply::LastError { code }).run(replies);
            &&& code == 0 ==> end.found is None && expected(end.found) == ErrorView::General(
                missing_diagnostic(),
            )
            &&& code != 0 ==> expected(end.found) is WinApi
        }),
{
    let read = ProbeView::start().next(Reply::LastError { code });
    if code == 0 {
        lemma_probe_done(read, replies);
    } else {
        lemma_probe_keeps_diagnostic(read, replies);
    }
}

} // verus!
