//! The dispatch router: from a request to the call that delivers it, and from the reply
//! to the response.

use vstd::prelude::*;
use vstd::string::StringExecFns;
use crate::discord::{
    request_timestamp, webhook_request_of, NotificationMessage, NotificationMessageView,
};
use crate::encryption::secret_of;
use crate::error::{provider_named, NotifyError, NotifyErrorView, Provider, RequiredField};
use crate::telegram::{endpoint_of, telegram_request_of};
use crate::text::str_eq;
use crate::transport::{
    delivery_outcome_of, is_success, outcome_view, OutboundRequest, OutboundRequestView,
    TransportReply, TransportReplyView,
};
use crate::AppState;

verus! {

/// The status with which a caller without the shared secret is turned away.
pub const UNAUTHORIZED: u16 = 401;

/// A request to deliver one alert. `notification_type` names the provider; the encrypted
/// fields are that provider's credentials.
#[derive(Clone, Debug, PartialEq, Eq)]
pub struct NotificationRequest {
    pub notification_type: String,
    pub encrypted_webhook: Option<String>,
    pub encrypted_token: Option<String>,
    pub encrypted_chat_id: Option<String>,
    pub message: NotificationMessage,
}

/// The mathematical value of a [`NotificationRequest`].
pub struct NotificationRequestView {
    pub notification_type: Seq<char>,
    pub encrypted_webhook: Option<Seq<char>>,
    pub encrypted_token: Option<Seq<char>>,
    pub encrypted_chat_id: Option<Seq<char>>,
    pub message: NotificationMessageView,
}

/// The mathematical value of an optional text.
pub open spec fn text_view(text: Option<String>) -> Option<Seq<char>> {
    match text {
        Some(t) => Some(t@),
        None => None,
    }
}

impl View for NotificationRequest {
    type V = NotificationRequestView;

    open spec fn view(&self) -> NotificationRequestView {
        NotificationRequestView {
            notification_type: self.notification_type@,
            encrypted_webhook: text_view(self.encrypted_webhook),
            encrypted_token: text_view(self.encrypted_token),
            encrypted_chat_id: text_view(self.encrypted_chat_id),
            message: self.message@,
        }
    }
}

/// What the caller is told: whether the alert was delivered and, if not, why.
#[derive(Clone, Debug, PartialEq, Eq)]
pub struct NotificationResponse {
    pub success: bool,
    pub error: Option<String>,
}

/// The mathematical value of a [`NotificationResponse`].
pub struct NotificationResponseView {
    pub success: bool,
    pub error: Option<Seq<char>>,
}

impl View for NotificationResponse {
    type V = NotificationResponseView;

    open spec fn view(&self) -> NotificationResponseView {
        NotificationResponseView { success: self.success, error: text_view(self.error) }
    }
}

/// What the service reports of itself.
#[derive(Clone, Debug, PartialEq, Eq)]
pub struct HealthStatus {
    pub status: String,
    pub service: String,
    pub version: String,
}

/// Where a request stands after routing.
#[derive(Clone, Debug, PartialEq, Eq)]
pub enum DispatchStep {
    /// One call to `provider` is due. The caller performs `request` and hands the reply
    /// to [`complete_notification`].
    Deliver { provider: Provider, request: OutboundRequest },
    /// Nothing is to be sent: this is the response.
    Respond(NotificationResponse),
}

/// The mathematical value of a [`DispatchStep`].
pub enum DispatchStepView {
    Deliver { provider: Provider, request: OutboundRequestView },
    Respond(NotificationResponseView),
}

impl View for DispatchStep {
    type V = DispatchStepView;

    open spec fn view(&self) -> DispatchStepView {
        match *self {
            DispatchStep::Deliver { provider, request } => DispatchStepView::Deliver {
                provider,
                request: request@,
            },
            DispatchStep::Respond(response) => DispatchStepView::Respond(response@),
        }
    }
}

/// The mathematical value of a planned call or the failure to plan one.
pub open spec fn plan_view(plan: Result<OutboundRequest, NotifyError>) -> Result<
    OutboundRequestView,
    NotifyErrorView,
> {
    match plan {
        Ok(request) => Ok(request@),
        Err(e) => Err(e@),
    }
}

/// The timestamp that a planned call carries; empty where there is none.
pub open spec fn plan_timestamp(plan: Result<OutboundRequestView, NotifyErrorView>) -> Seq<char> {
    match plan {
        Ok(request) => request_timestamp(request),
        Err(_) => Seq::empty(),
    }
}

/// The timestamp that the call of a step carries; empty where there is none.
pub open spec fn step_timestamp(step: DispatchStepView) -> Seq<char> {
    match step {
        DispatchStepView::Deliver { request, .. } => request_timestamp(request),
        DispatchStepView::Respond(_) => Seq::empty(),
    }
}

/// The response that reports how a dispatch ended: success, or the failure's message.
pub open spec fn response_of(outcome: Result<(), NotifyErrorView>) -> NotificationResponseView {
    match outcome {
        Ok(()) => NotificationResponseView { success: true, error: None },
        Err(e) => NotificationResponseView { success: false, error: Some(e.message()) },
    }
}

/// The webhook call that a request asks for: the webhook URL must be present and must
/// decrypt; the call is stamped with `timestamp`.
pub open spec fn discord_plan_of(
    state: AppState,
    request: NotificationRequestView,
    timestamp: Seq<char>,
) -> Result<OutboundRequestView, NotifyErrorView> {
    match request.encrypted_webhook {
        None => Err(NotifyErrorView::MissingField(RequiredField::Webhook)),
        Some(encrypted_webhook) => match secret_of(state.encryption.key(), encrypted_webhook) {
            Err(e) => Err(e),
            Ok(webhook_url) => Ok(
                webhook_request_of(
                    webhook_url,
                    request.message,
                    timestamp,
                    state.discord.timeout(),
                ),
            ),
        },
    }
}

/// The bot-API call that a request asks for: token and chat id must both be present, and
/// must decrypt, the token first.
pub open spec fn telegram_plan_of(state: AppState, request: NotificationRequestView) -> Result<
    OutboundRequestView,
    NotifyErrorView,
> {
    match request.encrypted_token {
        None => Err(NotifyErrorView::MissingField(RequiredField::Token)),
        Some(encrypted_token) => match request.encrypted_chat_id {
            None => Err(NotifyErrorView::MissingField(RequiredField::ChatId)),
            Some(encrypted_chat_id) => match secret_of(state.encryption.key(), encrypted_token) {
                Err(e) => Err(e),
                Ok(bot_token) => match secret_of(state.encryption.key(), encrypted_chat_id) {
                    Err(e) => Err(e),
                    Ok(chat_id) => Ok(
                        telegram_request_of(
                            bot_token,
                            chat_id,
                            request.message,
                            state.telegram.timeout(),
                        ),
                    ),
                },
            },
        },
    }
}

/// The step that follows from a plan for `provider`: the call, or the failure as response.
pub open spec fn step_of(
    provider: Provider,
    plan: Result<OutboundRequestView, NotifyErrorView>,
) -> DispatchStepView {
    match plan {
        Ok(request) => DispatchStepView::Deliver { provider, request },
        Err(e) => DispatchStepView::Respond(response_of(Err(e))),
    }
}

/// Where a request stands after routing: the type `discord` asks for the webhook call,
/// `telegram` for the bot-API call, and any other type is refused.
pub open spec fn dispatch_of(
    state: AppState,
    request: NotificationRequestView,
    timestamp: Seq<char>,
) -> DispatchStepView {
    match provider_named(request.notification_type) {
        Some(Provider::Discord) => step_of(
            Provider::Discord,
            discord_plan_of(state, request, timestamp),
        ),
        Some(Provider::Telegram) => step_of(Provider::Telegram, telegram_plan_of(state, request)),
        None => DispatchStepView::Respond(response_of(Err(NotifyErrorView::UnsupportedType))),
    }
}

/// Lets a caller in when the secret it presents is the shared one, and turns it away
/// with [`UNAUTHORIZED`] when it presents another or none.
pub fn auth_middleware(api_secret: Option<&str>, state: &AppState) -> (r: Result<(), u16>)
    ensures
        r is Ok <==> (api_secret matches Some(secret) && secret@ == state.vps_secret@),
        r matches Err(status) ==> status == UNAUTHORIZED,
{
    match api_secret {
        Some(secret) => {
            if str_eq(secret, state.vps_secret.as_str()) {
                Ok(())
            } else {
                Err(UNAUTHORIZED)
            }
        },
        None => Err(UNAUTHORIZED),
    }
}

/// Reports the service as healthy, with its name and version.
pub fn health_check() -> (health: HealthStatus)
    ensures
        health.status@ == "healthy"@,
        health.service@ == "streaky-notification-proxy"@,
        health.version@ == "0.1.0"@,
{
    HealthStatus {
        status: String::from_str("healthy"),
        service: String::from_str("streaky-notification-proxy"),
        version: String::from_str("0.1.0"),
    }
}

/// Turns the end of a dispatch into the response: success, or the failure's message.
pub fn respond(outcome: Result<(), NotifyError>) -> (response: NotificationResponse)
    ensures
        response@ == response_of(outcome_view(outcome)),
{
    match outcome {
        Ok(()) => NotificationResponse { success: true, error: None },
        Err(e) => NotificationResponse { success: false, error: Some(e.message()) },
    }
}

/// Plans the webhook call of a request: the webhook URL is required and decrypted, then
/// the webhook dispatcher builds the call.
pub fn handle_discord_notification(state: &AppState, payload: &NotificationRequest) -> (plan:
    Result<OutboundRequest, NotifyError>)
    ensures
        plan_view(plan) == discord_plan_of(*state, payload@, plan_timestamp(plan_view(plan))),
{
    match &payload.encrypted_webhook {
        None => Err(NotifyError::MissingField(RequiredField::Webhook)),
        Some(encrypted_webhook) => {
            match state.encryption.decrypt(encrypted_webhook.as_str()) {
                Err(e) => Err(e),
                Ok(webhook_url) => Ok(
                    state.discord.send_notification(webhook_url.as_str(), &payload.message),
                ),
            }
        },
    }
}

/// Plans the bot-API call of a request: token and chat id are required and decrypted, the
/// token first, then the bot-API dispatcher builds the call.
pub fn handle_telegram_notification(state: &AppState, payload: &NotificationRequest) -> (plan:
    Result<OutboundRequest, NotifyError>)
    ensures
        plan_view(plan) == telegram_plan_of(*state, payload@),
{
    let encrypted_token = match &payload.encrypted_token {
        None => { return Err(NotifyError::MissingField(RequiredField::Token)); },
        Some(text) => text,
    };
    let encrypted_chat_id = match &payload.encrypted_chat_id {
        None => { return Err(NotifyError::MissingField(RequiredField::ChatId)); },
        Some(text) => text,
    };
    let bot_token = match state.encryption.decrypt(encrypted_token.as_str()) {
        Err(e) => { return Err(e); },
        Ok(secret) => secret,
    };
    let chat_id = match state.encryption.decrypt(encrypted_chat_id.as_str()) {
        Err(e) => { return Err(e); },
        Ok(secret) => secret,
    };
    Ok(state.telegram.send_notification(bot_token.as_str(), chat_id.as_str(), &payload.message))
}

/// Turns a plan for `provider` into the step that follows from it.
fn step_from(provider: Provider, plan: Result<OutboundRequest, NotifyError>) -> (step: DispatchStep)
    ensures
        step@ == step_of(provider, plan_view(plan)),
{
    match plan {
        Ok(request) => DispatchStep::Deliver { provider, request },
        Err(e) => DispatchStep::Respond(respond(Err(e))),
    }
}

/// Routes a request. The result is either the one call that delivers the alert, with the
/// credentials decrypted into it, or the response that refuses the request; a refusal
/// comes before anything is sent.
pub fn send_notification(state: &AppState, payload: &NotificationRequest) -> (step: DispatchStep)
    ensures
        step@ == dispatch_of(*state, payload@, step_timestamp(step@)),
{
    match Provider::from_name(payload.notification_type.as_str()) {
        Some(Provider::Discord) => step_from(
            Provider::Discord,
            handle_discord_notification(state, payload),
        ),
        Some(Provider::Telegram) => step_from(
            Provider::Telegram,
            handle_telegram_notification(state, payload),
        ),
        None => DispatchStep::Respond(respond(Err(NotifyError::UnsupportedType))),
    }
}

/// Ends a dispatch: from what the transport reported of the call to `provider`, the
/// response to the caller.
pub fn complete_notification(
    state: &AppState,
    provider: Provider,
    reply: TransportReply,
) -> (response: NotificationResponse)
    ensures
        response@ == response_of(delivery_outcome_of(provider, reply@)),
{
    let outcome = match provider {
        Provider::Discord => state.discord.finish_notification(reply),
        Provider::Telegram => state.telegram.finish_notification(reply),
    };
    respond(outcome)
}

/// The sentences that refuse a request before anything is sent. None of them holds a
/// part of the request, of the key or of a decrypted secret.
pub open spec fn is_refusal_sentence(text: Seq<char>) -> bool {
    ||| text == "Invalid encrypted data: not base64"@
    ||| text == "Invalid encrypted data: too short"@
    ||| text == "Decryption failed: Error"@
    ||| text == "Decrypted data is not valid UTF-8"@
    ||| text == "Missing encrypted_webhook for Discord notification"@
    ||| text == "Missing encrypted_token for Telegram notification"@
    ||| text == "Missing encrypted_chat_id for Telegram notification"@
    ||| text == "Invalid notification type"@
}

/// The two provider names are different texts.
proof fn lemma_provider_names_differ()
    ensures
        "discord"@ != "telegram"@,
{
    reveal_strlit("discord");
    reveal_strlit("telegram");
    assert("discord"@.len() == 7);
    assert("telegram"@.len() == 8);
}

/// Missing-field short-circuit. A `telegram` request without a chat id is refused with
/// `MissingField`, and no call is handed out for it.
pub proof fn lemma_missing_chat_id_sends_nothing(
    state: AppState,
    request: NotificationRequestView,
    timestamp: Seq<char>,
)
    requires
        request.notification_type == "telegram"@,
        request.encrypted_chat_id is None,
    ensures
        telegram_plan_of(state, request) matches Err(NotifyErrorView::MissingField(_)),
        dispatch_of(state, request, timestamp) == step_of(
            Provider::Telegram,
            telegram_plan_of(state, request),
        ),
        dispatch_of(state, request, timestamp) is Respond,
{
    lemma_provider_names_differ();
}

/// A request whose type names no provider is refused as unsupported, whatever else it
/// carries: no field is looked at and no call is handed out.
pub proof fn lemma_unknown_type_sends_nothing(
    state: AppState,
    request: NotificationRequestView,
    timestamp: Seq<char>,
)
    requires
        provider_named(request.notification_type) is None,
    ensures
        dispatch_of(state, request, timestamp) == DispatchStepView::Respond(
            response_of(Err(NotifyErrorView::UnsupportedType)),
        ),
{
}

/// Decryption comes first. A call is handed out only when every credential that the
/// type requires is present and decrypts, and it goes to the endpoint that the
/// credentials name. Every other request ends in a failure response.
pub proof fn lemma_delivery_follows_decryption(
    state: AppState,
    request: NotificationRequestView,
    timestamp: Seq<char>,
)
    ensures
        match dispatch_of(state, request, timestamp) {
            DispatchStepView::Deliver { provider: Provider::Discord, request: call } => {
                &&& provider_named(request.notification_type) == Some(Provider::Discord)
                &&& request.encrypted_webhook matches Some(encrypted_webhook)
                &&& secret_of(state.encryption.key(), encrypted_webhook) == Ok::<
                    Seq<char>,
                    NotifyErrorView,
                >(call.url)
            },
            DispatchStepView::Deliver { provider: Provider::Telegram, request: call } => {
                &&& provider_named(request.notification_type) == Some(Provider::Telegram)
                &&& request.encrypted_token matches Some(encrypted_token)
                &&& request.encrypted_chat_id matches Some(encrypted_chat_id)
                &&& secret_of(state.encryption.key(), encrypted_token) matches Ok(bot_token)
                &&& secret_of(state.encryption.key(), encrypted_chat_id) is Ok
                &&& call.url == endpoint_of(bot_token)
            },
            DispatchStepView::Respond(response) => {
                &&& !response.success
                &&& response.error is Some
            },
        },
{
}

/// A refusal reveals nothing. The response that refuses a request before anything is
/// sent carries one of the fixed sentences, so neither ciphertext nor key nor a decrypted
/// secret can appear in it.
pub proof fn lemma_refusal_reveals_nothing(
    state: AppState,
    request: NotificationRequestView,
    timestamp: Seq<char>,
)
    ensures
        dispatch_of(state, request, timestamp) matches DispatchStepView::Respond(response) ==> {
            &&& !response.success
            &&& response.error matches Some(text)
            &&& is_refusal_sentence(text)
        },
{
}

/// The response reports success exactly when the provider answered with a status in
/// 200..=299; every other reply, and no reply, is a failure with a message.
pub proof fn lemma_response_reports_outcome(provider: Provider, reply: TransportReplyView)
    ensures
        ({
            let response = response_of(delivery_outcome_of(provider, reply));
            let delivered = reply matches TransportReplyView::Response { status, .. } && is_success(
                status,
            );
            &&& response.success <==> delivered
            &&& response.error is None <==> delivered
        }),
{
}

} // verus!
