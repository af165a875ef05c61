//! The ingest screen: the list of Twitch endpoints to choose from.
use vstd::prelude::*;
use crate::ingest::Twitch;

verus! {

/// A message for the ingest screen.
#[derive(Clone, Debug)]
pub enum Message {
    /// The endpoint list has been fetched, if it could be.
    FetchIngest(Option<Twitch>),
    /// The endpoint with this address template was chosen.
    SelectIngest(String),
}

impl Into<crate::view::Message> for Message {
    fn into(self) -> crate::view::Message {
        crate::view::Message::ViewMessage(crate::view::ViewMessage::Ingests(self))
    }
}

impl vstd::std_specs::convert::IntoSpecImpl<crate::view::Message> for Message {
    open spec fn obeys_into_spec() -> bool {
        true
    }

    open spec fn into_spec(self) -> crate::view::Message {
        crate::view::Message::ViewMessage(crate::view::ViewMessage::Ingests(self))
    }
}

} // verus!
