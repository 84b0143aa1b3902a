//! The poller's decisions: what one poll does to the chat buffer, what is
//! logged, and when the next poll is due.
//!
//! Fetching is the shell's business. It performs the request, hands the
//! outcome to [`apply_fetch_result`], prints what the returned
//! [`PollAction`] says and sleeps until the next poll. A failed poll never
//! touches the buffer and never changes the schedule.

use vstd::prelude::*;
use vstd::string::StringExecFns;
use crate::chat::{ChatMessage, ChatMessageView, ChatResponse, flatten_items, messages_view};

verus! {

/// Seconds between the end of one poll and the start of the next.
pub const POLL_INTERVAL_SECS: u64 = 4;

/// The kind of a failed poll.
#[derive(Clone, Copy, Debug, PartialEq, Eq, Structural)]
pub enum FetchErrorKind {
    /// The request did not bring a response body: connection or HTTP failure.
    Network,
    /// A body came, but it is not a chat response.
    Decode,
}

/// Why a poll failed.
#[derive(Debug, PartialEq, Eq)]
pub struct FetchError {
    /// The kind of failure.
    pub kind: FetchErrorKind,
    /// The failure in words, for the log.
    pub message: String,
}

/// The messages on display. The poller replaces them all at once; the
/// painter reads them.
#[derive(Debug, PartialEq, Eq)]
pub struct ChatBuffer {
    /// The messages, oldest first.
    pub messages: Vec<ChatMessage>,
}

impl View for ChatBuffer {
    type V = Seq<ChatMessageView>;

    open spec fn view(&self) -> Seq<ChatMessageView> {
        messages_view(self.messages@)
    }
}

/// What the shell does after a poll.
#[derive(Debug, PartialEq, Eq)]
pub struct PollAction {
    /// A line for standard output.
    pub status: String,
    /// A line for standard error, after a failed poll.
    pub error: Option<String>,
    /// Seconds to wait before the next poll.
    pub next_poll_secs: u64,
}

/// The status line after a poll that brought messages.
pub open spec fn received_status() -> Seq<char> {
    "received chat items"@
}

/// The status line after a failed poll.
pub open spec fn failed_status() -> Seq<char> {
    "error in fetching chat items"@
}

/// The error line for a failure described by `message`.
pub open spec fn error_line(message: Seq<char>) -> Seq<char> {
    "Error in fetching chat items: "@ + message
}

/// Whether `action` is what follows a poll that brought messages.
pub open spec fn reports_success(action: PollAction) -> bool {
    &&& action.status@ == received_status()
    &&& action.error is None
    &&& action.next_poll_secs == POLL_INTERVAL_SECS
}

/// Whether `action` is what follows a failed poll: one error line, and the
/// next poll at the usual time.
pub open spec fn reports_failure(action: PollAction) -> bool {
    &&& action.status@ == failed_status()
    &&& action.error matches Some(line) && exists|message: Seq<char>|
        line@ == #[trigger] error_line(message)
    &&& action.next_poll_secs == POLL_INTERVAL_SECS
}

/// The kind of a failure, given whether the HTTP client reports it as a
/// decoding failure.
pub open spec fn kind_of(is_decode: bool) -> FetchErrorKind {
    if is_decode {
        FetchErrorKind::Decode
    } else {
        FetchErrorKind::Network
    }
}

#[verifier::external_type_specification]
#[verifier::external_body]
pub struct ExReqwestError(reqwest::Error);

/// Whether the HTTP client counts `error` as a failure to decode a response
/// body: the answer of `reqwest::Error::is_decode`, which depends on the
/// error alone.
pub uninterp spec fn client_error_is_decode(error: reqwest::Error) -> bool;

/// Calls `reqwest::Error::is_decode`, which tells whether the error arose
/// while the response body was decoded. The contract gives that answer its
/// name and claims nothing else of it.
#[verifier::external_body]
fn error_is_decode(error: &reqwest::Error) -> (answer: bool)
    ensures
        answer == client_error_is_decode(*error),
{
    error.is_decode()
}

/// Formats a `reqwest::Error` through its `Display` impl. Nothing is
/// claimed of the text.
#[verifier::external_body]
fn error_text(error: &reqwest::Error) -> String {
    error.to_string()
}

impl FetchError {
    /// The failure with the given description; a decoding failure where
    /// `is_decode` holds, a network failure otherwise.
    pub fn classify(is_decode: bool, message: String) -> (error: FetchError)
        ensures
            error.kind == kind_of(is_decode),
            error.message == message,
    {
        let kind = if is_decode {
            FetchErrorKind::Decode
        } else {
            FetchErrorKind::Network
        };
        FetchError { kind, message }
    }

    /// The failure that the HTTP client's error stands for: a decoding
    /// failure where the client says so, a network failure otherwise. The
    /// message is the client's own description of the error, of which no
    /// clause speaks; [`FetchError::classify`] says what is made of it.
    pub fn from_client_error(error: &reqwest::Error) -> (failure: FetchError)
        ensures
            failure.kind == kind_of(client_error_is_decode(*error)),
    {
        FetchError::classify(error_is_decode(error), error_text(error))
    }

    /// The line that reports this failure.
    pub fn log_line(&self) -> (line: String)
        ensures
            line@ == error_line(self.message@),
    {
        let mut line = String::from_str("Error in fetching chat items: ");
        line.append(self.message.as_str());
        line
    }
}

impl ChatBuffer {
    /// An empty buffer.
    pub fn new() -> (buffer: ChatBuffer)
        ensures
            buffer@ == Seq::<ChatMessageView>::empty(),
    {
        let buffer = ChatBuffer { messages: Vec::new() };
        assert(buffer@ =~= Seq::<ChatMessageView>::empty());
        buffer
    }

    /// Puts `messages` in place of everything the buffer held.
    pub fn replace(&mut self, messages: Vec<ChatMessage>)
        ensures
            final(self).messages == messages,
            final(self)@ == messages_view(messages@),
    {
        self.messages = messages;
    }

    /// The number of messages.
    pub fn len(&self) -> (n: usize)
        ensures
            n == self@.len(),
    {
        self.messages.len()
    }
}

/// Applies the outcome of one poll. Messages replace the whole buffer, in
/// the order of the response; a failure leaves the buffer as it was and
/// yields one error line. Either way the next poll is due after
/// [`POLL_INTERVAL_SECS`].
pub fn apply_poll(buffer: &mut ChatBuffer, outcome: Result<ChatResponse, FetchError>) -> (action:
    PollAction)
    ensures
        match outcome {
            Ok(response) => {
                &&& final(buffer)@ == flatten_items(response@.live_chat_items)
                &&& reports_success(action)
            },
            Err(failure) => {
                &&& *final(buffer) == *old(buffer)
                &&& reports_failure(action)
                &&& action.error matches Some(line) && line@ == error_line(failure.message@)
            },
        },
{
    match outcome {
        Ok(response) => {
            let messages = response.flatten();
            buffer.replace(messages);
            PollAction {
                status: String::from_str("received chat items"),
                error: None,
                next_poll_secs: POLL_INTERVAL_SECS,
            }
        },
        Err(failure) => {
            let line = failure.log_line();
            PollAction {
                status: String::from_str("error in fetching chat items"),
                error: Some(line),
                next_poll_secs: POLL_INTERVAL_SECS,
            }
        },
    }
}

/// Applies what the HTTP client returned for one poll. A response is
/// applied as [`apply_poll`] does. Whatever the client's error is, the
/// buffer stays as it was, one error line is logged and the next poll is
/// due at the usual time.
pub fn apply_fetch_result(
    buffer: &mut ChatBuffer,
    result: Result<ChatResponse, reqwest::Error>,
) -> (action: PollAction)
    ensures
        match result {
            Ok(response) => {
                &&& final(buffer)@ == flatten_items(response@.live_chat_items)
                &&& reports_success(action)
            },
            Err(_) => {
                &&& *final(buffer) == *old(buffer)
                &&& reports_failure(action)
            },
        },
{
    match result {
        Ok(response) => apply_poll(buffer, Ok(response)),
        Err(error) => {
            let failure = FetchError::from_client_error(&error);
            apply_poll(buffer, Err(failure))
        },
    }
}

} // verus!
