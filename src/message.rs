use vstd::prelude::*;

use crate::block::Block;

verus! {

/// The body answering a handshake challenge.
pub struct UrlVerificationReply {
    pub challenge: String,
}

/// One message posted to a channel.
pub struct PostMessage {
    pub channel: String,
    pub text: Option<String>,
    pub blocks: Option<Vec<Block>>,
    pub thread_ts: Option<String>,
    pub reply_broadcast: bool,
}

/// A request to publish a user's home view.
pub struct ViewsPublish {
    pub user_id: String,
    pub view: crate::block::HomeView,
}

} // verus!
