use vstd::prelude::*;

verus! {

/// A view published to a user's home tab.
pub struct HomeView {
    pub ty: String,
    pub blocks: Vec<Block>,
}

/// One layout block of a rich message.
pub struct Block {
    pub ty: String,
    pub text: Option<Text>,
}

/// A text object inside a block.
pub struct Text {
    pub ty: String,
    pub text: String,
}

} // verus!
