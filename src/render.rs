use vstd::prelude::*;

use crate::block::{Block, Text};
use crate::message::PostMessage;

verus! {

/// How a section of engine output is meant to be shown.
#[derive(PartialEq, Eq, Structural, Clone, Copy, Debug)]
pub enum SectionKind {
    /// Prose commentary, shown as plain text.
    Comment,
    /// Structured data, shown in fixed width.
    Data,
}

/// One unit of engine output.
pub struct Section {
    pub kind: SectionKind,
    pub text: String,
}

/// What a request to the engine came to.
pub enum EngineOutcome {
    /// Output sections, in the order they are to be shown.
    Rendered(Vec<Section>),
    /// No command could be made of the input.
    Unintelligible,
    /// A command failed; the diagnostic to relay.
    Failed(String),
}

/// The reply sent for a request the engine could not make sense of.
pub const APOLOGY: &'static str = "Sorry, I can't understand your request.";

/// The fence around a fixed-width block.
pub const CODE_FENCE: &'static str = "```";

/// `p` inside a fixed-width code block.
pub open spec fn code_wrapped(p: Seq<char>) -> Seq<char> {
    CODE_FENCE@ + p + CODE_FENCE@
}

/// A message to `channel` that carries `text` as plain text and nothing else.
pub open spec fn is_text_reply(m: PostMessage, channel: Seq<char>, text: Seq<char>) -> bool {
    &&& m.channel@ == channel
    &&& m.text is Some && m.text->0@ == text
    &&& m.blocks is None
    &&& m.thread_ts is None
    &&& !m.reply_broadcast
}

/// A section block holding `text` as markdown.
pub open spec fn is_section_block(b: Block, text: Seq<char>) -> bool {
    &&& b.ty@ == "section"@
    &&& b.text is Some
    &&& b.text->0.ty@ == "mrkdwn"@
    &&& b.text->0.text@ == text
}

/// A message to `channel` made of one section block that holds `text`.
pub open spec fn is_block_reply(m: PostMessage, channel: Seq<char>, text: Seq<char>) -> bool {
    &&& m.channel@ == channel
    &&& m.text is None
    &&& m.blocks is Some
    &&& m.blocks->0@.len() == 1
    &&& is_section_block(m.blocks->0@[0], text)
    &&& m.thread_ts is None
    &&& !m.reply_broadcast
}

/// The reply that shows section `s` in `channel`: commentary as plain text,
/// data wrapped in a fixed-width block.
pub open spec fn is_reply_for(m: PostMessage, channel: Seq<char>, s: Section) -> bool {
    match s.kind {
        SectionKind::Comment => is_text_reply(m, channel, s.text@),
        SectionKind::Data => is_block_reply(m, channel, code_wrapped(s.text@)),
    }
}

/// The replies that present `outcome` in `channel`.
pub open spec fn renders(r: Seq<PostMessage>, outcome: EngineOutcome, channel: Seq<char>, apologize: bool) -> bool {
    match outcome {
        EngineOutcome::Rendered(secs) => {
            &&& r.len() == secs@.len()
            &&& forall|i: int| 0 <= i < r.len() ==> is_reply_for(#[trigger] r[i], channel, secs@[i])
        },
        EngineOutcome::Unintelligible => if apologize {
            r.len() == 1 && is_text_reply(r[0], channel, APOLOGY@)
        } else {
            r.len() == 0
        },
        EngineOutcome::Failed(d) => r.len() == 1 && is_text_reply(r[0], channel, d@),
    }
}

/// A plain-text message to `channel`.
pub fn text_reply(channel: &str, text: String) -> (m: PostMessage)
    ensures
        is_text_reply(m, channel@, text@),
{
    PostMessage {
        channel: String::from_str(channel),
        text: Some(text),
        blocks: None,
        thread_ts: None,
        reply_broadcast: false,
    }
}

/// A section block holding `text` as markdown.
pub fn section_block(text: String) -> (b: Block)
    ensures
        is_section_block(b, text@),
{
    Block {
        ty: String::from_str("section"),
        text: Some(Text { ty: String::from_str("mrkdwn"), text }),
    }
}

/// A message to `channel` that shows `text` in a fixed-width block.
pub fn code_reply(channel: &str, text: &str) -> (m: PostMessage)
    ensures
        is_block_reply(m, channel@, code_wrapped(text@)),
{
    let wrapped = String::from_str(CODE_FENCE).concat(text).concat(CODE_FENCE);
    let mut blocks: Vec<Block> = Vec::new();
    blocks.push(section_block(wrapped));
    PostMessage {
        channel: String::from_str(channel),
        text: None,
        blocks: Some(blocks),
        thread_ts: None,
        reply_broadcast: false,
    }
}

/// The reply that shows one section in `channel`.
pub fn render_section(s: &Section, channel: &str) -> (m: PostMessage)
    ensures
        is_reply_for(m, channel@, *s),
{
    match s.kind {
        SectionKind::Comment => text_reply(channel, s.text.clone()),
        SectionKind::Data => code_reply(channel, s.text.as_str()),
    }
}

/// Maps an engine outcome to the messages to post in `channel`, in the order
/// they are to be posted: one per section, in section order; the diagnostic
/// of a failure; and, where `apologize` is set, a fixed apology for a request
/// the engine could not make sense of.
pub fn render(outcome: &EngineOutcome, channel: &str, apologize: bool) -> (r: Vec<PostMessage>)
    ensures
        renders(r@, *outcome, channel@, apologize),
        forall|i: int| 0 <= i < r@.len() ==> #[trigger] r@[i].text is Some || r@[i].blocks is Some,
{
    let mut r: Vec<PostMessage> = Vec::new();
    match outcome {
        EngineOutcome::Rendered(secs) => {
            let mut i: usize = 0;
            while i < secs.len()
                invariant
                    i <= secs@.len(),
                    r@.len() == i,
                    forall|j: int| 0 <= j < i ==> is_reply_for(#[trigger] r@[j], channel@, secs@[j]),
                decreases secs@.len() - i,
            {
                r.push(render_section(&secs[i], channel));
                i = i + 1;
            }
        },
        EngineOutcome::Unintelligible => {
            if apologize {
                r.push(text_reply(channel, String::from_str(APOLOGY)));
            }
        },
        EngineOutcome::Failed(d) => {
            r.push(text_reply(channel, d.clone()));
        },
    }
    r
}

} // verus!
