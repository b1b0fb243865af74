//! Credential decryption and provider dispatch for streak notifications.
//!
//! A request names a provider and carries that provider's credentials encrypted. The
//! library decrypts them, builds the one call that delivers the alert, and turns what the
//! transport reports of that call into the response. It performs no I/O itself: the
//! caller performs the call between [`handlers::send_notification`] and
//! [`handlers::complete_notification`].

use vstd::prelude::*;
use crate::discord::DiscordService;
use crate::encryption::EncryptionService;
use crate::telegram::TelegramService;

pub mod discord;
pub mod encryption;
pub mod error;
pub mod handlers;
pub mod telegram;
pub mod text;
pub mod transport;

verus! {

/// What every request shares: the dispatchers, the cipher, and the secret that callers
/// must present. Nothing in it changes after start.
pub struct AppState {
    pub discord: DiscordService,
    pub telegram: TelegramService,
    pub encryption: EncryptionService,
    pub vps_secret: String,
}

} // verus!
