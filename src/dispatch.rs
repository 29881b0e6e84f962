use vstd::prelude::*;

use crate::block::{Block, HomeView};
use crate::event::{Event, FileRef, MessageEvent};
use crate::message::{UrlVerificationReply, ViewsPublish};
use crate::normalize::{emoji_expanded, markup_normalized, normalize};
use crate::render::{is_section_block, section_block};

verus! {

/// The content-free acknowledgment returned for every notification.
pub const ACK: &'static str = "ok";

/// The greeting shown on the bot's home tab.
pub const HOME_GREETING: &'static str = "Hello, I'm Yozuk.";

/// The channel type of a direct-message conversation.
pub const DIRECT_CHANNEL: &'static str = "im";

/// A message to hand to the engine.
pub struct Request {
    pub channel: String,
    /// The normalized text.
    pub text: String,
    pub files: Vec<FileRef>,
}

/// What to do with an inbound event.
pub enum Action {
    /// Answer the handshake with this body, and do nothing else.
    Challenge(UrlVerificationReply),
    /// Run the message through the engine and post the replies.
    Process(Request),
    /// Publish this home view.
    PublishHome(ViewsPublish),
    /// Acknowledge and do nothing.
    Ignore,
}

/// The request for a message to `channel` whose raw text is `text`.
pub open spec fn is_request_for(
    req: Request,
    channel: Seq<char>,
    text: Seq<char>,
    files: Seq<FileRef>,
    bot_id: Seq<char>,
) -> bool {
    &&& req.channel@ == channel
    &&& req.text@ == emoji_expanded(markup_normalized(text, bot_id))
    &&& req.files@ == files
}

/// The home view of `user`: one section block with the greeting.
pub open spec fn is_home_publish(p: ViewsPublish, user: Seq<char>) -> bool {
    &&& p.user_id@ == user
    &&& p.view.ty@ == "home"@
    &&& p.view.blocks@.len() == 1
    &&& is_section_block(p.view.blocks@[0], HOME_GREETING@)
}

/// A plain message is handled only in a direct conversation, and never when
/// the bot sent it itself.
pub open spec fn message_eligible(channel_type: Seq<char>, user: Seq<char>, bot_id: Seq<char>) -> bool {
    channel_type == DIRECT_CHANNEL@ && user != bot_id
}

/// The action an event calls for.
pub open spec fn dispatched(event: Event, bot_id: Seq<char>, a: Action) -> bool {
    match event {
        Event::UrlVerification(v) => a matches Action::Challenge(r) && r.challenge@ == v.challenge@,
        Event::EventCallback(cb) => match cb.event {
            MessageEvent::AppMention(m) => a matches Action::Process(req) && is_request_for(
                req,
                m.channel@,
                m.text@,
                m.files@,
                bot_id,
            ),
            MessageEvent::Message(m) => if message_eligible(m.channel_type@, m.user@, bot_id) {
                a matches Action::Process(req) && is_request_for(
                    req,
                    m.channel@,
                    m.text@,
                    m.files@,
                    bot_id,
                )
            } else {
                a is Ignore
            },
            MessageEvent::AppHomeOpened(h) => a matches Action::PublishHome(p) && is_home_publish(
                p,
                h.user@,
            ),
            MessageEvent::Other => a is Ignore,
        },
    }
}

/// The welcome view published when `user_id` opens the home tab.
pub fn home_publish(user_id: String) -> (p: ViewsPublish)
    ensures
        is_home_publish(p, user_id@),
{
    let mut blocks: Vec<Block> = Vec::new();
    blocks.push(section_block(String::from_str(HOME_GREETING)));
    ViewsPublish { user_id, view: HomeView { ty: String::from_str("home"), blocks } }
}

/// The echo that answers a handshake.
pub fn handle_url_verification(v: crate::event::UrlVerification) -> (r: UrlVerificationReply)
    ensures
        r.challenge@ == v.challenge@,
{
    UrlVerificationReply { challenge: v.challenge }
}

/// Decides what an inbound event calls for. A handshake is answered at once;
/// a mention of the bot, and a direct message that the bot did not send
/// itself, go to the engine with their text normalized; opening the home tab
/// publishes the welcome view; anything else is only acknowledged.
pub fn dispatch(event: Event, bot_id: &str) -> (a: Action)
    ensures
        dispatched(event, bot_id@, a),
{
    match event {
        Event::UrlVerification(v) => Action::Challenge(handle_url_verification(v)),
        Event::EventCallback(cb) => match cb.event {
            MessageEvent::AppMention(m) => Action::Process(
                Request {
                    channel: m.channel,
                    text: normalize(m.text.as_str(), bot_id),
                    files: m.files,
                },
            ),
            MessageEvent::Message(m) => {
                let direct = m.channel_type == String::from_str(DIRECT_CHANNEL);
                let from_bot = m.user == String::from_str(bot_id);
                if direct && !from_bot {
                    Action::Process(
                        Request {
                            channel: m.channel,
                            text: normalize(m.text.as_str(), bot_id),
                            files: m.files,
                        },
                    )
                } else {
                    Action::Ignore
                }
            },
            MessageEvent::AppHomeOpened(h) => Action::PublishHome(home_publish(h.user)),
            MessageEvent::Other => Action::Ignore,
        },
    }
}

/// A direct message sent by the bot itself never reaches the engine: nothing
/// is downloaded, interpreted or posted for it.
pub proof fn lemma_own_message_ignored(event: Event, bot_id: Seq<char>, a: Action)
    requires
        dispatched(event, bot_id, a),
        event matches Event::EventCallback(cb) && cb.event matches MessageEvent::Message(m)
            && m.user@ == bot_id,
    ensures
        a is Ignore,
{
}

/// A handshake is answered with its challenge echoed and nothing else: the
/// action is the echo alone, so no message is processed or posted.
pub proof fn lemma_handshake_echoed(event: Event, bot_id: Seq<char>, a: Action)
    requires
        dispatched(event, bot_id, a),
        event is UrlVerification,
    ensures
        a matches Action::Challenge(r) && r.challenge@ == event->UrlVerification_0.challenge@,
{
}

} // verus!
