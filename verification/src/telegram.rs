//! The bot-API dispatcher: an alert is sent as one text message to a chat.

use vstd::prelude::*;
use vstd::string::StringExecFns;
use crate::discord::{NotificationMessage, NotificationMessageView};
use crate::error::{NotifyError, Provider};
use crate::text::{decimal, push_decimal};
use crate::transport::{
    delivery_outcome, delivery_outcome_of, outcome_view, OutboundRequest, OutboundRequestView,
    Payload, PayloadView, TransportReply, REQUEST_TIMEOUT_SECS,
};

verus! {

/// The body of a `sendMessage` call.
#[derive(Clone, Debug, PartialEq, Eq)]
pub struct TelegramMessage {
    pub chat_id: String,
    pub text: String,
    pub parse_mode: String,
}

/// The mathematical value of a [`TelegramMessage`].
pub struct TelegramMessageView {
    pub chat_id: Seq<char>,
    pub text: Seq<char>,
    pub parse_mode: Seq<char>,
}

impl View for TelegramMessage {
    type V = TelegramMessageView;

    open spec fn view(&self) -> TelegramMessageView {
        TelegramMessageView {
            chat_id: self.chat_id@,
            text: self.text@,
            parse_mode: self.parse_mode@,
        }
    }
}

/// The text block of an alert, in the provider's Markdown: the alert marker, the message
/// text, the username, the streak in days, and the signature line.
pub open spec fn alert_text_of(message: NotificationMessageView) -> Seq<char> {
    "⚠️ *GitHub Streak Alert*\n\n"@ + message.message + "\n\n👤 *GitHub Username:* "@
        + message.username + "\n🔥 *Current Streak:* "@ + decimal(message.current_streak)
        + " days\n\n_Streaky - Never lose your GitHub streak_"@
}

/// The `sendMessage` endpoint of the bot that `bot_token` belongs to.
pub open spec fn endpoint_of(bot_token: Seq<char>) -> Seq<char> {
    "https://api.telegram.org/bot"@ + bot_token + "/sendMessage"@
}

/// The `sendMessage` body that shows `message` in the chat `chat_id`.
pub open spec fn telegram_message_of(
    chat_id: Seq<char>,
    message: NotificationMessageView,
) -> TelegramMessageView {
    TelegramMessageView { chat_id, text: alert_text_of(message), parse_mode: "Markdown"@ }
}

/// The call that delivers `message` to the chat `chat_id` through the bot of `bot_token`.
pub open spec fn telegram_request_of(
    bot_token: Seq<char>,
    chat_id: Seq<char>,
    message: NotificationMessageView,
    timeout_secs: u64,
) -> OutboundRequestView {
    OutboundRequestView {
        url: endpoint_of(bot_token),
        body: PayloadView::Telegram(telegram_message_of(chat_id, message)),
        timeout_secs,
    }
}

/// Renders the text block of an alert.
pub fn format_alert_text(message: &NotificationMessage) -> (text: String)
    ensures
        text@ == alert_text_of(message@),
{
    let mut out = String::from_str("⚠️ *GitHub Streak Alert*\n\n");
    out.append(message.message.as_str());
    out.append("\n\n👤 *GitHub Username:* ");
    out.append(message.username.as_str());
    out.append("\n🔥 *Current Streak:* ");
    push_decimal(&mut out, message.current_streak as i64);
    out.append(" days\n\n_Streaky - Never lose your GitHub streak_");
    out
}

/// Renders the `sendMessage` endpoint of the bot that `bot_token` belongs to.
pub fn format_endpoint(bot_token: &str) -> (url: String)
    ensures
        url@ == endpoint_of(bot_token@),
{
    let mut out = String::from_str("https://api.telegram.org/bot");
    out.append(bot_token);
    out.append("/sendMessage");
    out
}

/// The bot-API dispatcher and its settings.
pub struct TelegramService {
    timeout_secs: u64,
}

impl TelegramService {
    /// The seconds after which this dispatcher's calls are given up.
    pub closed spec fn timeout(&self) -> u64 {
        self.timeout_secs
    }

    /// A dispatcher whose calls are bounded by the request timeout.
    pub fn new() -> (service: Self)
        ensures
            service.timeout() == REQUEST_TIMEOUT_SECS,
    {
        TelegramService { timeout_secs: REQUEST_TIMEOUT_SECS }
    }

    /// The seconds after which this dispatcher's calls are given up.
    pub fn timeout_secs(&self) -> (secs: u64)
        ensures
            secs == self.timeout(),
    {
        self.timeout_secs
    }

    /// First half of a delivery: the one call to perform. The caller performs it and hands
    /// the reply to [`Self::finish_notification`].
    pub fn send_notification(
        &self,
        bot_token: &str,
        chat_id: &str,
        message: &NotificationMessage,
    ) -> (request: OutboundRequest)
        ensures
            request@ == telegram_request_of(bot_token@, chat_id@, message@, self.timeout()),
    {
        let payload = TelegramMessage {
            chat_id: String::from_str(chat_id),
            text: format_alert_text(message),
            parse_mode: String::from_str("Markdown"),
        };
        OutboundRequest {
            url: format_endpoint(bot_token),
            body: Payload::Telegram(payload),
            timeout_secs: self.timeout_secs,
        }
    }

    /// Second half of a delivery: how it ended, given what the transport reported.
    pub fn finish_notification(&self, reply: TransportReply) -> (outcome: Result<(), NotifyError>)
        ensures
            outcome_view(outcome) == delivery_outcome_of(Provider::Telegram, reply@),
    {
        delivery_outcome(Provider::Telegram, reply)
    }
}

} // verus!
