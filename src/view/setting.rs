//! The setting screen: the streaming service, the custom address and the
//! stream key.
use vstd::prelude::*;
use crate::ingest::Service;

verus! {

/// A message for the setting screen.
#[derive(Clone, Debug)]
pub enum Message {
    ToggleSecureInput(bool),
    InputChanged(String),
    SelectIngestService(Service),
    UpdateSetting,
}

impl Into<crate::view::Message> for Message {
    fn into(self) -> crate::view::Message {
        crate::view::Message::ViewMessage(crate::view::ViewMessage::Setting(self))
    }
}

impl vstd::std_specs::convert::IntoSpecImpl<crate::view::Message> for Message {
    open spec fn obeys_into_spec() -> bool {
        true
    }

    open spec fn into_spec(self) -> crate::view::Message {
        crate::view::Message::ViewMessage(crate::view::ViewMessage::Setting(self))
    }
}

/// Which text input has the focus.
#[derive(Clone, Copy, Debug, PartialEq, Eq, Structural)]
pub enum Focus {
    Url,
    Key,
    Nothing,
}

/// What the setting screen edits.
#[derive(Clone, Debug)]
pub struct Form {
    pub ingest_service: Option<Service>,
    pub custom_url: String,
    pub stream_key: String,
    pub is_secure: bool,
}

impl Form {
    /// Applies `message` to the form, an edit going to the input that has
    /// the focus. Returns whether the form is to be saved.
    pub fn update(&mut self, message: Message, focus: Focus) -> (save: bool)
        ensures
            save == (message is UpdateSetting),
            match message {
                Message::ToggleSecureInput(b) => *final(self) == (Form { is_secure: b, ..*old(self) }),
                Message::InputChanged(s) => match focus {
                    Focus::Url => *final(self) == (Form { custom_url: s, ..*old(self) }),
                    Focus::Key => *final(self) == (Form { stream_key: s, ..*old(self) }),
                    Focus::Nothing => *final(self) == *old(self),
                },
                Message::SelectIngestService(v) => *final(self) == (Form { ingest_service: Some(v), ..*old(self) }),
                Message::UpdateSetting => *final(self) == *old(self),
            },
    {
        match message {
            Message::ToggleSecureInput(b) => {
                self.is_secure = b;
                false
            },
            Message::InputChanged(s) => {
                match focus {
                    Focus::Url => self.custom_url = s,
                    Focus::Key => self.stream_key = s,
                    Focus::Nothing => {},
                }
                false
            },
            Message::SelectIngestService(v) => {
                self.ingest_service = Some(v);
                false
            },
            Message::UpdateSetting => true,
        }
    }
}

} // verus!
