use streaky_notification_proxy::discord::NotificationMessage;
use streaky_notification_proxy::error::{NotifyError, Provider};
use streaky_notification_proxy::telegram::{
    format_alert_text, format_endpoint, TelegramMessage, TelegramService,
};
use streaky_notification_proxy::transport::{Payload, TransportReply};

#[test]
fn test_telegram_service_creation() {
    let _service = TelegramService::new();
    // Just verify it can be created
    assert!(true);
}

#[test]
fn test_message_formatting() {
    let _message = NotificationMessage {
        username: "testuser".to_string(),
        current_streak: 365,
        contributions_today: Some(5),
        message: "Test message".to_string(),
    };

    let _service = TelegramService::new();
    assert!(true);
}

#[test]
fn telegram_service_has_the_request_timeout() {
    assert_eq!(TelegramService::new().timeout_secs(), 10);
}

#[test]
fn alert_text_is_the_markdown_block() {
    let message = NotificationMessage {
        username: "testuser".to_string(),
        current_streak: 365,
        contributions_today: Some(5),
        message: "Test message".to_string(),
    };
    assert_eq!(
        format_alert_text(&message),
        "⚠️ *GitHub Streak Alert*\n\nTest message\n\n👤 *GitHub Username:* testuser\n🔥 *Current Streak:* 365 days\n\n_Streaky - Never lose your GitHub streak_"
    );
}

#[test]
fn alert_text_of_an_empty_message_and_a_negative_streak() {
    let message = NotificationMessage {
        username: String::new(),
        current_streak: -7,
        contributions_today: None,
        message: String::new(),
    };
    assert_eq!(
        format_alert_text(&message),
        "⚠️ *GitHub Streak Alert*\n\n\n\n👤 *GitHub Username:* \n🔥 *Current Streak:* -7 days\n\n_Streaky - Never lose your GitHub streak_"
    );
}

#[test]
fn endpoint_is_templated_from_the_token() {
    assert_eq!(
        format_endpoint("123456:ABC-DEF"),
        "https://api.telegram.org/bot123456:ABC-DEF/sendMessage"
    );
    assert_eq!(format_endpoint(""), "https://api.telegram.org/bot/sendMessage");
}

#[test]
fn telegram_request_carries_chat_text_and_parse_mode() {
    let message = NotificationMessage {
        username: "alice".to_string(),
        current_streak: 5,
        contributions_today: None,
        message: "keep going".to_string(),
    };
    let request = TelegramService::new().send_notification("123456:ABC-DEF", "-100987", &message);
    assert_eq!(request.url, "https://api.telegram.org/bot123456:ABC-DEF/sendMessage");
    assert_eq!(request.timeout_secs, 10);
    assert_eq!(
        request.body,
        Payload::Telegram(TelegramMessage {
            chat_id: "-100987".to_string(),
            text: "⚠️ *GitHub Streak Alert*\n\nkeep going\n\n👤 *GitHub Username:* alice\n🔥 *Current Streak:* 5 days\n\n_Streaky - Never lose your GitHub streak_".to_string(),
            parse_mode: "Markdown".to_string(),
        })
    );
}

#[test]
fn telegram_reply_with_success_status_is_a_delivery() {
    let service = TelegramService::new();
    let reply = TransportReply::Response { status: 200, body: Some("{\"ok\":true}".to_string()) };
    assert_eq!(service.finish_notification(reply), Ok(()));
}

#[test]
fn telegram_reply_with_other_status_is_a_rejection() {
    let service = TelegramService::new();
    let reply = TransportReply::Response { status: 401, body: Some("Unauthorized".to_string()) };
    let outcome = service.finish_notification(reply);
    assert_eq!(
        outcome,
        Err(NotifyError::ProviderRejected {
            provider: Provider::Telegram,
            status: 401,
            body: "Unauthorized".to_string(),
        })
    );
    assert_eq!(
        outcome.err().unwrap().message(),
        "Telegram API error: 401 Unauthorized - Unauthorized"
    );
}

#[test]
fn telegram_transport_failure_is_reported_as_such() {
    let service = TelegramService::new();
    let reply = TransportReply::Failure { reason: "operation timed out".to_string() };
    assert_eq!(
        service.finish_notification(reply),
        Err(NotifyError::TransportFailure { reason: "operation timed out".to_string() })
    );
}
