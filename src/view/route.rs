//! Lifting a screen's message into the application's message.
use vstd::prelude::*;
use crate::view::{Message, ViewMessage};

verus! {

/// The conversion of screen messages into application messages, as a
/// plain function for callers that hold no trait in scope.
pub struct Into;

impl Into {
    /// The application message that carries `message` to its screen.
    pub fn into(message: ViewMessage) -> (r: Message)
        ensures
            r == Message::ViewMessage(message),
    {
        Message::ViewMessage(message)
    }
}

} // verus!
