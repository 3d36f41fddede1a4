//! The capabilities that a client can ask the server for.
use vstd::prelude::*;

verus! {

/// A capability: a part of the protocol that the server leaves out unless it is
/// asked for.
#[derive(Copy, Clone, Debug, PartialEq, Eq, Structural, PartialOrd, Ord, Hash)]
pub enum Capability {
    /// The commands that are special to the platform.
    Commands,
    /// The joining and leaving of users.
    Membership,
    /// The tags of messages.
    Tags,
}

/// The name by which a capability is asked for.
pub open spec fn capability_name(cap: Capability) -> Seq<char> {
    match cap {
        Capability::Commands => "twitch.tv/commands"@,
        Capability::Membership => "twitch.tv/membership"@,
        Capability::Tags => "twitch.tv/tags"@,
    }
}

impl Capability {
    /// The name by which this capability is asked for.
    pub fn as_str(&self) -> (r: &'static str)
        ensures
            r@ == capability_name(*self),
    {
        match self {
            Capability::Commands => "twitch.tv/commands",
            Capability::Membership => "twitch.tv/membership",
            Capability::Tags => "twitch.tv/tags",
        }
    }
}

/// All the capabilities there are.
pub const ALL_CAPABILITIES: [Capability; 3] = [
    Capability::Commands,
    Capability::Membership,
    Capability::Tags,
];

} // verus!
