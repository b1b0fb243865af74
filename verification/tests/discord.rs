use streaky_notification_proxy::discord::{
    build_payload, format_streak, DiscordEmbed, DiscordField, DiscordFooter, DiscordService,
    DiscordWebhookPayload, NotificationMessage, ALERT_COLOR,
};
use streaky_notification_proxy::error::{NotifyError, Provider};
use streaky_notification_proxy::transport::{Payload, TransportReply};

fn sample_message() -> NotificationMessage {
    NotificationMessage {
        username: "testuser".to_string(),
        current_streak: 365,
        contributions_today: Some(5),
        message: "Test message".to_string(),
    }
}

fn expected_payload(timestamp: &str) -> DiscordWebhookPayload {
    DiscordWebhookPayload {
        embeds: vec![DiscordEmbed {
            title: "⚠️ GitHub Streak Alert".to_string(),
            description: "Test message".to_string(),
            color: 16739947,
            fields: vec![
                DiscordField {
                    name: "GitHub Username".to_string(),
                    value: "testuser".to_string(),
                    inline: true,
                },
                DiscordField {
                    name: "Current Streak".to_string(),
                    value: "365 days".to_string(),
                    inline: true,
                },
            ],
            footer: DiscordFooter { text: "Streaky - Never lose your GitHub streak".to_string() },
            timestamp: timestamp.to_string(),
        }],
        username: "Streaky Bot".to_string(),
    }
}

#[test]
fn test_discord_service_creation() {
    let _service = DiscordService::new();
    // Just verify it can be created
    assert!(true);
}

#[test]
fn test_notification_message_serialization() {
    let message = NotificationMessage {
        username: "testuser".to_string(),
        current_streak: 365,
        contributions_today: Some(5),
        message: "Test message".to_string(),
    };

    let mut object = serde_json::Map::new();
    object.insert("username".to_string(), serde_json::Value::from(message.username.clone()));
    object.insert("current_streak".to_string(), serde_json::Value::from(message.current_streak));
    object.insert(
        "contributions_today".to_string(),
        serde_json::Value::from(message.contributions_today),
    );
    object.insert("message".to_string(), serde_json::Value::from(message.message.clone()));
    let json = serde_json::to_string(&serde_json::Value::Object(object));
    assert!(json.is_ok());
}

#[test]
fn discord_service_has_the_request_timeout() {
    assert_eq!(DiscordService::new().timeout_secs(), 10);
}

#[test]
fn alert_color_is_light_red() {
    assert_eq!(ALERT_COLOR, 0xff6e6b);
    assert_eq!(ALERT_COLOR, 16739947);
}

#[test]
fn streak_is_shown_in_days() {
    assert_eq!(format_streak(5), "5 days");
    assert_eq!(format_streak(365), "365 days");
    assert_eq!(format_streak(1), "1 days");
    assert_eq!(format_streak(0), "0 days");
    assert_eq!(format_streak(-3), "-3 days");
    assert_eq!(format_streak(i32::MAX), "2147483647 days");
    assert_eq!(format_streak(i32::MIN), "-2147483648 days");
}

#[test]
fn payload_is_one_embed_with_two_fields() {
    let payload = build_payload(&sample_message(), "2024-05-01T12:00:00+00:00".to_string());
    assert_eq!(payload, expected_payload("2024-05-01T12:00:00+00:00"));
    assert_eq!(payload.embeds.len(), 1);
    assert_eq!(payload.embeds[0].fields.len(), 2);
}

#[test]
fn payload_takes_text_from_the_message() {
    let message = NotificationMessage {
        username: "alice".to_string(),
        current_streak: -1,
        contributions_today: None,
        message: "keep going".to_string(),
    };
    let payload = build_payload(&message, String::new());
    assert_eq!(payload.username, "Streaky Bot");
    let embed = &payload.embeds[0];
    assert_eq!(embed.title, "⚠️ GitHub Streak Alert");
    assert_eq!(embed.description, "keep going");
    assert_eq!(embed.color, 16739947);
    assert_eq!(embed.fields[0].name, "GitHub Username");
    assert_eq!(embed.fields[0].value, "alice");
    assert!(embed.fields[0].inline);
    assert_eq!(embed.fields[1].name, "Current Streak");
    assert_eq!(embed.fields[1].value, "-1 days");
    assert!(embed.fields[1].inline);
    assert_eq!(embed.footer.text, "Streaky - Never lose your GitHub streak");
    assert_eq!(embed.timestamp, "");
}

#[test]
fn request_goes_to_the_webhook_url() {
    let service = DiscordService::new();
    let request = service.build_request(
        "https://example.invalid/hook",
        &sample_message(),
        "2024-05-01T12:00:00+00:00".to_string(),
    );
    assert_eq!(request.url, "https://example.invalid/hook");
    assert_eq!(request.timeout_secs, 10);
    assert_eq!(request.body, Payload::Discord(expected_payload("2024-05-01T12:00:00+00:00")));
}

#[test]
fn sent_request_is_stamped_with_the_current_time() {
    let service = DiscordService::new();
    let before = chrono::Utc::now();
    let request = service.send_notification("https://example.invalid/hook", &sample_message());
    let after = chrono::Utc::now();
    assert_eq!(request.url, "https://example.invalid/hook");
    assert_eq!(request.timeout_secs, 10);
    let payload = match request.body {
        Payload::Discord(payload) => payload,
        Payload::Telegram(_) => panic!("a webhook request carries a webhook body"),
    };
    let timestamp = payload.embeds[0].timestamp.clone();
    assert_eq!(payload, expected_payload(&timestamp));
    let stamped = chrono::DateTime::parse_from_rfc3339(&timestamp).unwrap();
    assert_eq!(stamped.offset().local_minus_utc(), 0);
    assert!(before <= stamped && stamped <= after);
}

#[test]
fn discord_reply_with_success_status_is_a_delivery() {
    let service = DiscordService::new();
    let reply = TransportReply::Response { status: 204, body: Some(String::new()) };
    assert_eq!(service.finish_notification(reply), Ok(()));
}

#[test]
fn discord_reply_with_other_status_is_a_rejection() {
    let service = DiscordService::new();
    let reply = TransportReply::Response { status: 400, body: Some("bad request".to_string()) };
    let outcome = service.finish_notification(reply);
    assert_eq!(
        outcome,
        Err(NotifyError::ProviderRejected {
            provider: Provider::Discord,
            status: 400,
            body: "bad request".to_string(),
        })
    );
    assert_eq!(
        outcome.err().unwrap().message(),
        "Discord API error: 400 Bad Request - bad request"
    );
}

#[test]
fn discord_transport_failure_is_reported_as_such() {
    let service = DiscordService::new();
    let reply = TransportReply::Failure { reason: "dns error".to_string() };
    assert_eq!(
        service.finish_notification(reply),
        Err(NotifyError::TransportFailure { reason: "dns error".to_string() })
    );
}
