//! The closed set of failures that a dispatch can end in.

use vstd::prelude::*;
use vstd::string::StringExecFns;
use crate::text::str_eq;
use crate::transport::{status_line, status_line_text};

verus! {

/// A messaging provider that alerts are delivered to.
#[derive(Clone, Copy, Debug, PartialEq, Eq, Structural)]
pub enum Provider {
    Discord,
    Telegram,
}

/// An encrypted credential that a request must carry for its notification type.
#[derive(Clone, Copy, Debug, PartialEq, Eq, Structural)]
pub enum RequiredField {
    Webhook,
    Token,
    ChatId,
}

/// Why a ciphertext was refused before any decryption was attempted.
#[derive(Clone, Copy, Debug, PartialEq, Eq, Structural)]
pub enum CiphertextDefect {
    /// The text is base64 in neither the standard nor the URL-safe alphabet.
    Encoding,
    /// The decoded bytes are too few to hold a nonce.
    TooShort,
}

/// The configured key material is too short to take a cipher key from.
#[derive(Clone, Copy, Debug, PartialEq, Eq, Structural)]
pub struct KeyTooShort {
    /// The bytes of key material that were offered.
    pub length: usize,
}

impl KeyTooShort {
    /// The human-readable message of the refusal.
    pub fn message(&self) -> (s: String)
        ensures
            s@ == "Encryption key must be at least 32 bytes"@,
    {
        String::from_str("Encryption key must be at least 32 bytes")
    }
}

/// A failure of credential decryption, routing or delivery.
#[derive(Clone, Debug, PartialEq, Eq)]
pub enum NotifyError {
    /// The ciphertext is malformed.
    InvalidCiphertext(CiphertextDefect),
    /// The cipher refused the ciphertext: it was altered, or sealed under another key or nonce.
    DecryptionFailed,
    /// The decrypted bytes are not UTF-8 text.
    InvalidPlaintext,
    /// The request lacks a credential that its notification type requires.
    MissingField(RequiredField),
    /// The notification type names no known provider.
    UnsupportedType,
    /// The provider answered with a status outside 200..=299.
    ProviderRejected { provider: Provider, status: u16, body: String },
    /// No response was received from the provider.
    TransportFailure { reason: String },
}

/// The mathematical value of a [`NotifyError`].
pub enum NotifyErrorView {
    InvalidCiphertext(CiphertextDefect),
    DecryptionFailed,
    InvalidPlaintext,
    MissingField(RequiredField),
    UnsupportedType,
    ProviderRejected { provider: Provider, status: u16, body: Seq<char> },
    TransportFailure { reason: Seq<char> },
}

impl View for NotifyError {
    type V = NotifyErrorView;

    open spec fn view(&self) -> NotifyErrorView {
        match *self {
            NotifyError::InvalidCiphertext(defect) => NotifyErrorView::InvalidCiphertext(defect),
            NotifyError::DecryptionFailed => NotifyErrorView::DecryptionFailed,
            NotifyError::InvalidPlaintext => NotifyErrorView::InvalidPlaintext,
            NotifyError::MissingField(field) => NotifyErrorView::MissingField(field),
            NotifyError::UnsupportedType => NotifyErrorView::UnsupportedType,
            NotifyError::ProviderRejected { provider, status, body } => {
                NotifyErrorView::ProviderRejected { provider, status, body: body@ }
            },
            NotifyError::TransportFailure { reason } => NotifyErrorView::TransportFailure {
                reason: reason@,
            },
        }
    }
}

/// The provider that a notification type names: `discord` or `telegram`, spelled exactly
/// so; any other text names none.
pub open spec fn provider_named(notification_type: Seq<char>) -> Option<Provider> {
    if notification_type == "discord"@ {
        Some(Provider::Discord)
    } else if notification_type == "telegram"@ {
        Some(Provider::Telegram)
    } else {
        None
    }
}

/// The name of a provider as it appears in messages.
pub open spec fn provider_label(provider: Provider) -> Seq<char> {
    match provider {
        Provider::Discord => "Discord"@,
        Provider::Telegram => "Telegram"@,
    }
}

/// The sentence that names a missing credential.
pub open spec fn missing_field_text(field: RequiredField) -> Seq<char> {
    match field {
        RequiredField::Webhook => "Missing encrypted_webhook for Discord notification"@,
        RequiredField::Token => "Missing encrypted_token for Telegram notification"@,
        RequiredField::ChatId => "Missing encrypted_chat_id for Telegram notification"@,
    }
}

impl NotifyErrorView {
    /// The human-readable message of the failure. It holds no key, no ciphertext and no
    /// decrypted secret: its only variable parts are what the provider or the transport said.
    pub open spec fn message(self) -> Seq<char> {
        match self {
            NotifyErrorView::InvalidCiphertext(CiphertextDefect::Encoding) => {
                "Invalid encrypted data: not base64"@
            },
            NotifyErrorView::InvalidCiphertext(CiphertextDefect::TooShort) => {
                "Invalid encrypted data: too short"@
            },
            NotifyErrorView::DecryptionFailed => "Decryption failed: Error"@,
            NotifyErrorView::InvalidPlaintext => "Decrypted data is not valid UTF-8"@,
            NotifyErrorView::MissingField(field) => missing_field_text(field),
            NotifyErrorView::UnsupportedType => "Invalid notification type"@,
            NotifyErrorView::ProviderRejected { provider, status, body } => provider_label(provider)
                + " API error: "@ + status_line_text(status) + " - "@ + body,
            NotifyErrorView::TransportFailure { reason } => reason,
        }
    }
}

impl Provider {
    /// Finds the provider that a notification type names.
    pub fn from_name(notification_type: &str) -> (provider: Option<Provider>)
        ensures
            provider == provider_named(notification_type@),
    {
        if str_eq(notification_type, "discord") {
            Some(Provider::Discord)
        } else if str_eq(notification_type, "telegram") {
            Some(Provider::Telegram)
        } else {
            None
        }
    }

    /// The name of the provider as it appears in messages.
    pub fn label(&self) -> (s: &'static str)
        ensures
            s@ == provider_label(*self),
    {
        match self {
            Provider::Discord => "Discord",
            Provider::Telegram => "Telegram",
        }
    }
}

impl RequiredField {
    /// The sentence that names this credential as missing.
    pub fn missing_text(&self) -> (s: &'static str)
        ensures
            s@ == missing_field_text(*self),
    {
        match self {
            RequiredField::Webhook => "Missing encrypted_webhook for Discord notification",
            RequiredField::Token => "Missing encrypted_token for Telegram notification",
            RequiredField::ChatId => "Missing encrypted_chat_id for Telegram notification",
        }
    }
}

impl NotifyError {
    /// The human-readable message that is reported to the caller.
    pub fn message(&self) -> (s: String)
        ensures
            s@ == self@.message(),
    {
        match self {
            NotifyError::InvalidCiphertext(CiphertextDefect::Encoding) => String::from_str(
                "Invalid encrypted data: not base64",
            ),
            NotifyError::InvalidCiphertext(CiphertextDefect::TooShort) => String::from_str(
                "Invalid encrypted data: too short",
            ),
            NotifyError::DecryptionFailed => String::from_str("Decryption failed: Error"),
            NotifyError::InvalidPlaintext => String::from_str("Decrypted data is not valid UTF-8"),
            NotifyError::MissingField(field) => String::from_str(field.missing_text()),
            NotifyError::UnsupportedType => String::from_str("Invalid notification type"),
            NotifyError::ProviderRejected { provider, status, body } => {
                let mut out = String::from_str(provider.label());
                out.append(" API error: ");
                let line = status_line(*status);
                out.append(line.as_str());
                out.append(" - ");
                out.append(body.as_str());
                out
            },
            NotifyError::TransportFailure { reason } => reason.clone(),
        }
    }
}

} // verus!
