//! Classification of the chat an inbound message belongs to.

use vstd::prelude::*;

verus! {

/// The kind of chat a message arrived in.
#[derive(Clone, Copy, Debug, PartialEq, Eq, Structural)]
pub enum ChatKind {
    /// A one-to-one conversation with the bot.
    Direct,
    /// A basic group.
    Group,
    /// A supergroup.
    Supergroup,
    /// Anything else, such as a channel.
    Other,
}

impl ChatKind {
    /// Whether automated replies are allowed in a chat of this kind:
    /// exactly in groups and supergroups.
    pub open spec fn spec_in_group(self) -> bool {
        self is Group || self is Supergroup
    }

    /// Whether automated replies are allowed in a chat of this kind.
    #[verifier::when_used_as_spec(spec_in_group)]
    pub fn in_group(self) -> (allowed: bool)
        ensures
            allowed == self.spec_in_group(),
    {
        match self {
            ChatKind::Group => true,
            ChatKind::Supergroup => true,
            ChatKind::Direct => false,
            ChatKind::Other => false,
        }
    }
}

} // verus!
