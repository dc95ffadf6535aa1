//! The outbound send path: one best-effort HTTP POST of a message to a peer,
//! bounded by a short timeout, and the report the operator sees afterwards.
//!
//! [`send_message`] makes exactly one attempt — no retry — and classifies
//! every failure as a [`SendError`]. It blocks its caller for up to the
//! timeout, which is why the interactive loop runs it on a detached task;
//! [`submit_and_report`] is that task's whole body: send, then push exactly
//! one result message back over the relay, success echo and failure notice
//! alike.

use vstd::prelude::*;
use crate::codec::encode_message;
use crate::message::{Message, MessageView};
use crate::relay::relay_send;

verus! {

/// The timeout of one outbound send, covering connection, request and
/// response, in milliseconds.
pub const SEND_TIMEOUT_MS: u64 = 800;

/// Why an outbound send failed. Every failure is recovered locally — it is
/// shown to the operator, never propagated as a crash.
#[derive(Clone, Copy, Debug, PartialEq, Eq, Structural)]
pub enum SendError {
    /// The connection could not be established.
    ConnectFailed,
    /// The peer did not complete the exchange within the timeout.
    Timeout,
    /// The exchange completed but the peer did not acknowledge the message.
    BadResponse,
}

#[verifier::external_type_specification]
#[verifier::external_body]
pub struct ExReqwestError(reqwest::Error);

pub assume_specification[ reqwest::Error::is_timeout ](e: &reqwest::Error) -> bool;

pub assume_specification[ reqwest::Error::is_connect ](e: &reqwest::Error) -> bool;

/// Relies on `reqwest::blocking`: posts `body` to `http://{address}/message`
/// as JSON, waits at most [`SEND_TIMEOUT_MS`] for the whole exchange, and
/// treats an error-status reply as a failure. The outcome depends on the
/// network, so nothing is promised beyond which it is.
#[verifier::external_body]
fn http_post_message(address: &str, body: &str) -> (r: Result<(), reqwest::Error>) {
    let client = reqwest::blocking::Client::new();
    let api_url = format!("http://{}/message", address);
    client
        .post(api_url)
        .header("content-type", "application/json")
        .body(body.to_string())
        .timeout(std::time::Duration::from_millis(SEND_TIMEOUT_MS))
        .send()
        .and_then(|resp| resp.error_for_status())
        .map(|_| ())
}

/// Names each transport failure, in the order reqwest distinguishes them: a
/// timeout, then a connection failure, and everything else — an error
/// status, a malformed reply — as a bad response.
fn classify_error(e: &reqwest::Error) -> (se: SendError) {
    if e.is_timeout() {
        SendError::Timeout
    } else if e.is_connect() {
        SendError::ConnectFailed
    } else {
        SendError::BadResponse
    }
}

/// Posts the canonical wire text of `msg` to `http://{address}/message`,
/// making exactly one attempt bounded by [`SEND_TIMEOUT_MS`]. Whether the
/// peer answers is the network's to decide, so the result only reports which
/// outcome happened.
pub fn send_message(address: &str, msg: Message) -> (r: Result<(), SendError>) {
    let body = encode_message(&msg);
    match http_post_message(address, body.as_str()) {
        Result::Ok(()) => Ok(()),
        Result::Err(e) => Err(classify_error(&e)),
    }
}

/// The operator-readable text of a send failure.
pub open spec fn failure_text(e: SendError) -> Seq<char> {
    match e {
        SendError::ConnectFailed => "Failed to send: connection failed"@,
        SendError::Timeout => "Failed to send: request timed out"@,
        SendError::BadResponse => "Failed to send: bad response from peer"@,
    }
}

/// What the history gains once a submission resolves: on success the sent
/// message itself, echoed back through the relay so the operator's own
/// messages join the one unified history; on failure a status notice naming
/// the cause, from the local "Server" sender.
pub open spec fn outcome_view(m: MessageView, r: Result<(), SendError>) -> MessageView {
    match r {
        Result::Ok(()) => m,
        Result::Err(e) => MessageView { username: "Server"@, message: failure_text(e) },
    }
}

/// Builds the message reporting a submission's outcome; exactly
/// [`outcome_view`] of the sent message and the result.
pub fn outcome_message(msg: Message, r: &Result<(), SendError>) -> (out: Message)
    ensures
        out@ == outcome_view(msg@, *r),
{
    match r {
        Result::Ok(()) => msg,
        Result::Err(e) => {
            let text: &str = match e {
                SendError::ConnectFailed => "Failed to send: connection failed",
                SendError::Timeout => "Failed to send: request timed out",
                SendError::BadResponse => "Failed to send: bad response from peer",
            };
            Message { username: "Server".to_owned(), message: text.to_owned() }
        },
    }
}

/// The whole body of one detached send task: make the one attempt, then push
/// exactly one result message — [`outcome_view`] of what happened — back
/// onto the relay. Runs to completion even if the interactive loop has since
/// exited; the final push then fails silently, which is acceptable while the
/// process is shutting down. Returns the pushed message: some outcome of
/// this submission, whatever the network did.
pub fn submit_and_report(
    tx: &std::sync::mpsc::Sender<Message>,
    address: &str,
    msg: Message,
) -> (out: Message)
    ensures
        exists|r: Result<(), SendError>| out@ == outcome_view(msg@, r),
{
    let result = send_message(address, msg.clone_message());
    let out = outcome_message(msg, &result);
    let echo = out.clone_message();
    relay_send(tx, echo);
    proof {
        assert(out@ == outcome_view(msg@, result));
    }
    out
}

} // verus!
