//! Decision logic of a chat webhook relay: event dispatch, message text
//! normalization, engine result classification and reply rendering.

mod attach;
mod block;
mod dispatch;
mod event;
mod gateway;
mod message;
mod normalize;
mod render;

pub use attach::first_unparseable;
pub use block::{Block, HomeView, Text};
pub use dispatch::{
    dispatch, handle_url_verification, home_publish, Action, Request, ACK, DIRECT_CHANNEL,
    HOME_GREETING,
};
pub use event::{
    AppHomeOpened, AppMention, Event, EventCallback, FileRef, Message, MessageEvent,
    UrlVerification,
};
pub use gateway::{classify, diagnostic_text, EngineReport};
pub use message::{PostMessage, UrlVerificationReply, ViewsPublish};
pub use normalize::{normalize, normalize_markup};
pub use render::{
    code_reply, render, render_section, section_block, text_reply, EngineOutcome, Section,
    SectionKind, APOLOGY, CODE_FENCE,
};
