//! What is handed to the HTTP transport and what comes back from it.

use vstd::prelude::*;
use vstd::string::StringExecFns;
use crate::discord::{DiscordWebhookPayload, DiscordWebhookPayloadView};
use crate::error::{NotifyError, NotifyErrorView, Provider};
use crate::telegram::{TelegramMessage, TelegramMessageView};
use crate::text::{decimal, push_decimal};

verus! {

/// The seconds after which an outbound call is given up.
pub const REQUEST_TIMEOUT_SECS: u64 = 10;

/// The reason phrase that the `http` crate knows for a status code; `None` for a number
/// that is no status code (outside 100..=999) and for a code without a phrase.
pub uninterp spec fn http_canonical_reason(status: u16) -> Option<Seq<char>>;

/// Calls `http::StatusCode::from_u16` and, on a valid code, `StatusCode::canonical_reason`.
/// Trusted: the result is the phrase from the crate's table, as named by
/// [`http_canonical_reason`]; nothing is claimed of which codes have one.
#[verifier::external_body]
fn canonical_reason(status: u16) -> (r: Option<&'static str>)
    ensures
        match r {
            Some(text) => http_canonical_reason(status) == Some(text@),
            None => http_canonical_reason(status) is None,
        },
{
    match http::StatusCode::from_u16(status) {
        Ok(code) => code.canonical_reason(),
        Err(_) => None,
    }
}

/// A status is a success when it lies in 200..=299.
pub open spec fn is_success(status: u16) -> bool {
    200 <= status < 300
}

/// The text of a status with a known reason phrase `reason`: the number, a space, and the
/// phrase or a placeholder.
pub open spec fn status_line_with(status: u16, reason: Option<Seq<char>>) -> Seq<char> {
    decimal(status as int) + " "@ + match reason {
        Some(text) => text,
        None => "<unknown status code>"@,
    }
}

/// The text of a status as it appears in messages, such as `400 Bad Request`.
pub open spec fn status_line_text(status: u16) -> Seq<char> {
    status_line_with(status, http_canonical_reason(status))
}

/// Renders a status from its number and its reason phrase, if it has one.
pub fn render_status_line(status: u16, reason: Option<&str>) -> (s: String)
    ensures
        s@ == status_line_with(
            status,
            match reason {
                Some(text) => Some(text@),
                None => None,
            },
        ),
{
    let mut out = String::new();
    push_decimal(&mut out, status as i64);
    out.append(" ");
    match reason {
        Some(text) => out.append(text),
        None => out.append("<unknown status code>"),
    }
    out
}

/// Renders a status as it appears in messages, such as `400 Bad Request`.
pub fn status_line(status: u16) -> (s: String)
    ensures
        s@ == status_line_text(status),
{
    let reason = canonical_reason(status);
    render_status_line(status, reason)
}

/// The JSON body of an outbound call, in the shape its provider expects.
#[derive(Clone, Debug, PartialEq, Eq)]
pub enum Payload {
    Discord(DiscordWebhookPayload),
    Telegram(TelegramMessage),
}

/// The mathematical value of a [`Payload`].
pub enum PayloadView {
    Discord(DiscordWebhookPayloadView),
    Telegram(TelegramMessageView),
}

impl View for Payload {
    type V = PayloadView;

    open spec fn view(&self) -> PayloadView {
        match *self {
            Payload::Discord(payload) => PayloadView::Discord(payload@),
            Payload::Telegram(payload) => PayloadView::Telegram(payload@),
        }
    }
}

/// One HTTP POST that the transport is asked to perform: `body` is sent as JSON to `url`,
/// and the call is given up after `timeout_secs` seconds.
#[derive(Clone, Debug, PartialEq, Eq)]
pub struct OutboundRequest {
    pub url: String,
    pub body: Payload,
    pub timeout_secs: u64,
}

/// The mathematical value of an [`OutboundRequest`].
pub struct OutboundRequestView {
    pub url: Seq<char>,
    pub body: PayloadView,
    pub timeout_secs: u64,
}

impl View for OutboundRequest {
    type V = OutboundRequestView;

    open spec fn view(&self) -> OutboundRequestView {
        OutboundRequestView { url: self.url@, body: self.body@, timeout_secs: self.timeout_secs }
    }
}

/// What the transport reports of one outbound call.
#[derive(Clone, Debug, PartialEq, Eq)]
pub enum TransportReply {
    /// A response arrived. `body` is its text, `None` where the text could not be read.
    Response { status: u16, body: Option<String> },
    /// No response arrived: name resolution, TLS or the connection failed, or time ran out.
    Failure { reason: String },
}

/// The mathematical value of a [`TransportReply`].
pub enum TransportReplyView {
    Response { status: u16, body: Option<Seq<char>> },
    Failure { reason: Seq<char> },
}

impl View for TransportReply {
    type V = TransportReplyView;

    open spec fn view(&self) -> TransportReplyView {
        match *self {
            TransportReply::Response { status, body } => TransportReplyView::Response {
                status,
                body: match body {
                    Some(text) => Some(text@),
                    None => None,
                },
            },
            TransportReply::Failure { reason } => TransportReplyView::Failure { reason: reason@ },
        }
    }
}

/// How a delivery to `provider` ended, given what the transport reported: a success
/// status is a delivery; any other status is a rejection that carries the status and the
/// body text, empty where it could not be read; no response is a transport failure.
pub open spec fn delivery_outcome_of(provider: Provider, reply: TransportReplyView) -> Result<
    (),
    NotifyErrorView,
> {
    match reply {
        TransportReplyView::Response { status, body } => if is_success(status) {
            Ok(())
        } else {
            Err(
                NotifyErrorView::ProviderRejected {
                    provider,
                    status,
                    body: match body {
                        Some(text) => text,
                        None => Seq::empty(),
                    },
                },
            )
        },
        TransportReplyView::Failure { reason } => Err(NotifyErrorView::TransportFailure { reason }),
    }
}

/// The mathematical value of a delivery's outcome.
pub open spec fn outcome_view(outcome: Result<(), NotifyError>) -> Result<(), NotifyErrorView> {
    match outcome {
        Ok(()) => Ok(()),
        Err(e) => Err(e@),
    }
}

/// Decides how a delivery to `provider` ended from what the transport reported.
pub fn delivery_outcome(provider: Provider, reply: TransportReply) -> (outcome: Result<
    (),
    NotifyError,
>)
    ensures
        outcome_view(outcome) == delivery_outcome_of(provider, reply@),
{
    match reply {
        TransportReply::Response { status, body } => {
            if 200 <= status && status < 300 {
                Ok(())
            } else {
                let text = match body {
                    Some(text) => text,
                    None => String::new(),
                };
                Err(NotifyError::ProviderRejected { provider, status, body: text })
            }
        },
        TransportReply::Failure { reason } => Err(NotifyError::TransportFailure { reason }),
    }
}

} // verus!
