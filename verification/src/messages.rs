//! The management-protocol message kinds this core knows of.  The session
//! protocol itself is out of scope here; the kinds only serve as context
//! carried inside errors, naming which protocol message was being processed
//! when a failure occurred.

use vstd::prelude::*;

verus! {

/// A management-protocol message kind.
#[derive(Clone, Copy, Debug, PartialEq, Eq, Structural)]
pub enum MessageType {
    Inform,
    InformResponse,
}

/// The characters of a message kind's name.
pub open spec fn message_type_text(mt: MessageType) -> Seq<char> {
    match mt {
        MessageType::Inform => "Inform"@,
        MessageType::InformResponse => "InformResponse"@,
    }
}

impl MessageType {
    /// The message kind's name, for one-line summaries.
    pub fn as_str(&self) -> (r: &'static str)
        ensures
            r@ == message_type_text(*self),
    {
        match self {
            MessageType::Inform => "Inform",
            MessageType::InformResponse => "InformResponse",
        }
    }
}

} // verus!
