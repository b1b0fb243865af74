//! The webhook dispatcher: an alert is posted as one embed to a webhook URL.

use vstd::prelude::*;
use vstd::string::StringExecFns;
use crate::error::{NotifyError, Provider};
use crate::text::{decimal, push_decimal};
use crate::transport::{
    delivery_outcome, delivery_outcome_of, outcome_view, OutboundRequest, OutboundRequestView,
    Payload, PayloadView, TransportReply, REQUEST_TIMEOUT_SECS,
};

verus! {

/// The colour of the alert embed, a light red (`0xff6e6b`).
pub const ALERT_COLOR: u32 = 16739947;

/// The alert that is delivered: who it is about, their streak, and the text to show.
#[derive(Clone, Debug, PartialEq, Eq)]
pub struct NotificationMessage {
    pub username: String,
    pub current_streak: i32,
    pub contributions_today: Option<i32>,
    pub message: String,
}

/// The mathematical value of a [`NotificationMessage`].
pub struct NotificationMessageView {
    pub username: Seq<char>,
    pub current_streak: int,
    pub contributions_today: Option<int>,
    pub message: Seq<char>,
}

impl View for NotificationMessage {
    type V = NotificationMessageView;

    open spec fn view(&self) -> NotificationMessageView {
        NotificationMessageView {
            username: self.username@,
            current_streak: self.current_streak as int,
            contributions_today: match self.contributions_today {
                Some(n) => Some(n as int),
                None => None,
            },
            message: self.message@,
        }
    }
}

/// A labelled value inside an embed.
#[derive(Clone, Debug, PartialEq, Eq)]
pub struct DiscordField {
    pub name: String,
    pub value: String,
    pub inline: bool,
}

/// The mathematical value of a [`DiscordField`].
pub struct DiscordFieldView {
    pub name: Seq<char>,
    pub value: Seq<char>,
    pub inline: bool,
}

impl View for DiscordField {
    type V = DiscordFieldView;

    open spec fn view(&self) -> DiscordFieldView {
        DiscordFieldView { name: self.name@, value: self.value@, inline: self.inline }
    }
}

/// The footer line of an embed.
#[derive(Clone, Debug, PartialEq, Eq)]
pub struct DiscordFooter {
    pub text: String,
}

/// The mathematical value of a [`DiscordFooter`].
pub struct DiscordFooterView {
    pub text: Seq<char>,
}

impl View for DiscordFooter {
    type V = DiscordFooterView;

    open spec fn view(&self) -> DiscordFooterView {
        DiscordFooterView { text: self.text@ }
    }
}

/// One embed of a webhook message.
#[derive(Clone, Debug, PartialEq, Eq)]
pub struct DiscordEmbed {
    pub title: String,
    pub description: String,
    pub color: u32,
    pub fields: Vec<DiscordField>,
    pub footer: DiscordFooter,
    pub timestamp: String,
}

/// The mathematical value of a [`DiscordEmbed`].
pub struct DiscordEmbedView {
    pub title: Seq<char>,
    pub description: Seq<char>,
    pub color: u32,
    pub fields: Seq<DiscordFieldView>,
    pub footer: DiscordFooterView,
    pub timestamp: Seq<char>,
}

impl View for DiscordEmbed {
    type V = DiscordEmbedView;

    open spec fn view(&self) -> DiscordEmbedView {
        DiscordEmbedView {
            title: self.title@,
            description: self.description@,
            color: self.color,
            fields: Seq::new(self.fields@.len(), |i: int| self.fields@[i]@),
            footer: self.footer@,
            timestamp: self.timestamp@,
        }
    }
}

/// The body of a webhook call.
#[derive(Clone, Debug, PartialEq, Eq)]
pub struct DiscordWebhookPayload {
    pub embeds: Vec<DiscordEmbed>,
    pub username: String,
}

/// The mathematical value of a [`DiscordWebhookPayload`].
pub struct DiscordWebhookPayloadView {
    pub embeds: Seq<DiscordEmbedView>,
    pub username: Seq<char>,
}

impl View for DiscordWebhookPayload {
    type V = DiscordWebhookPayloadView;

    open spec fn view(&self) -> DiscordWebhookPayloadView {
        DiscordWebhookPayloadView {
            embeds: Seq::new(self.embeds@.len(), |i: int| self.embeds@[i]@),
            username: self.username@,
        }
    }
}

/// The streak as it is shown: the number of days, then the word.
pub open spec fn streak_text(current_streak: int) -> Seq<char> {
    decimal(current_streak) + " days"@
}

/// The webhook body for `message`, stamped with `timestamp`: one embed with the alert
/// title, the message text as description, the alert colour, the username and the streak
/// as two inline fields, the footer, and the timestamp; sent under the bot's name.
pub open spec fn webhook_payload_of(
    message: NotificationMessageView,
    timestamp: Seq<char>,
) -> DiscordWebhookPayloadView {
    DiscordWebhookPayloadView {
        embeds: seq![
            DiscordEmbedView {
                title: "⚠️ GitHub Streak Alert"@,
                description: message.message,
                color: ALERT_COLOR,
                fields: seq![
                    DiscordFieldView {
                        name: "GitHub Username"@,
                        value: message.username,
                        inline: true,
                    },
                    DiscordFieldView {
                        name: "Current Streak"@,
                        value: streak_text(message.current_streak),
                        inline: true,
                    },
                ],
                footer: DiscordFooterView { text: "Streaky - Never lose your GitHub streak"@ },
                timestamp,
            },
        ],
        username: "Streaky Bot"@,
    }
}

/// The call that delivers `message` to the webhook at `webhook_url`.
pub open spec fn webhook_request_of(
    webhook_url: Seq<char>,
    message: NotificationMessageView,
    timestamp: Seq<char>,
    timeout_secs: u64,
) -> OutboundRequestView {
    OutboundRequestView {
        url: webhook_url,
        body: PayloadView::Discord(webhook_payload_of(message, timestamp)),
        timeout_secs,
    }
}

/// The timestamp that a webhook request carries; empty for any other request.
pub open spec fn request_timestamp(request: OutboundRequestView) -> Seq<char> {
    match request.body {
        PayloadView::Discord(payload) => if payload.embeds.len() > 0 {
            payload.embeds[0].timestamp
        } else {
            Seq::empty()
        },
        PayloadView::Telegram(_) => Seq::empty(),
    }
}

/// Renders the streak as it is shown, such as `5 days`.
pub fn format_streak(current_streak: i32) -> (s: String)
    ensures
        s@ == streak_text(current_streak as int),
{
    let mut out = String::new();
    push_decimal(&mut out, current_streak as i64);
    out.append(" days");
    out
}

/// Builds the webhook body for `message`, stamped with `timestamp`.
pub fn build_payload(message: &NotificationMessage, timestamp: String) -> (payload:
    DiscordWebhookPayload)
    ensures
        payload@ == webhook_payload_of(message@, timestamp@),
{
    let mut fields: Vec<DiscordField> = Vec::new();
    fields.push(
        DiscordField {
            name: String::from_str("GitHub Username"),
            value: message.username.clone(),
            inline: true,
        },
    );
    fields.push(
        DiscordField {
            name: String::from_str("Current Streak"),
            value: format_streak(message.current_streak),
            inline: true,
        },
    );
    let embed = DiscordEmbed {
        title: String::from_str("⚠️ GitHub Streak Alert"),
        description: message.message.clone(),
        color: ALERT_COLOR,
        fields,
        footer: DiscordFooter { text: String::from_str("Streaky - Never lose your GitHub streak") },
        timestamp,
    };
    assert(embed@.fields =~= webhook_payload_of(message@, timestamp@).embeds[0].fields);
    let mut embeds: Vec<DiscordEmbed> = Vec::new();
    embeds.push(embed);
    let payload = DiscordWebhookPayload { embeds, username: String::from_str("Streaky Bot") };
    assert(payload@.embeds =~= webhook_payload_of(message@, timestamp@).embeds);
    payload
}

/// Reads the clock through `chrono::Utc::now` and renders the instant with
/// `DateTime::to_rfc3339`. Nothing is claimed of the text: it differs from call to call.
/// The clock must not stand before 1970, where `now` gives up.
#[verifier::external_body]
fn utc_timestamp() -> String {
    chrono::Utc::now().to_rfc3339()
}

/// The webhook dispatcher and its settings.
pub struct DiscordService {
    timeout_secs: u64,
}

impl DiscordService {
    /// The seconds after which this dispatcher's calls are given up.
    pub closed spec fn timeout(&self) -> u64 {
        self.timeout_secs
    }

    /// A dispatcher whose calls are bounded by the request timeout.
    pub fn new() -> (service: Self)
        ensures
            service.timeout() == REQUEST_TIMEOUT_SECS,
    {
        DiscordService { timeout_secs: REQUEST_TIMEOUT_SECS }
    }

    /// The seconds after which this dispatcher's calls are given up.
    pub fn timeout_secs(&self) -> (secs: u64)
        ensures
            secs == self.timeout(),
    {
        self.timeout_secs
    }

    /// The call that delivers `message` to the webhook at `webhook_url`, stamped with
    /// `timestamp`.
    pub fn build_request(
        &self,
        webhook_url: &str,
        message: &NotificationMessage,
        timestamp: String,
    ) -> (request: OutboundRequest)
        ensures
            request@ == webhook_request_of(webhook_url@, message@, timestamp@, self.timeout()),
    {
        OutboundRequest {
            url: String::from_str(webhook_url),
            body: Payload::Discord(build_payload(message, timestamp)),
            timeout_secs: self.timeout_secs,
        }
    }

    /// First half of a delivery: the one call to perform, stamped with the current time.
    /// The caller performs it and hands the reply to [`Self::finish_notification`].
    pub fn send_notification(&self, webhook_url: &str, message: &NotificationMessage) -> (request:
        OutboundRequest)
        ensures
            request@ == webhook_request_of(
                webhook_url@,
                message@,
                request_timestamp(request@),
                self.timeout(),
            ),
    {
        let timestamp = utc_timestamp();
        self.build_request(webhook_url, message, timestamp)
    }

    /// Second half of a delivery: how it ended, given what the transport reported.
    pub fn finish_notification(&self, reply: TransportReply) -> (outcome: Result<(), NotifyError>)
        ensures
            outcome_view(outcome) == delivery_outcome_of(Provider::Discord, reply@),
    {
        delivery_outcome(Provider::Discord, reply)
    }
}

} // verus!
