use vstd::prelude::*;

verus! {

/// An inbound webhook payload.
pub enum Event {
    /// The platform's one-time handshake.
    UrlVerification(UrlVerification),
    /// A notification about something that happened.
    EventCallback(EventCallback),
}

/// A handshake that must be answered by echoing `challenge`.
pub struct UrlVerification {
    pub token: String,
    pub challenge: String,
}

/// The notification carried by an event callback.
pub enum MessageEvent {
    /// The bot was mentioned.
    AppMention(AppMention),
    /// A message was posted.
    Message(Message),
    /// A user opened the bot's home tab.
    AppHomeOpened(AppHomeOpened),
    /// A notification of a kind this relay does not act on.
    Other,
}

/// The envelope of a notification.
pub struct EventCallback {
    pub event: MessageEvent,
}

/// A message that mentions the bot.
pub struct AppMention {
    pub channel: String,
    pub text: String,
    pub user: String,
    pub ts: String,
    pub files: Vec<FileRef>,
}

/// A message posted to a channel the bot is in.
pub struct Message {
    pub channel: String,
    pub text: String,
    pub user: String,
    pub channel_type: String,
    pub ts: String,
    pub files: Vec<FileRef>,
}

/// A user opened the bot's home tab.
pub struct AppHomeOpened {
    pub user: String,
}

/// A file attached to a message, not yet downloaded.
pub struct FileRef {
    pub url_private_download: String,
    pub mimetype: String,
}

} // verus!
