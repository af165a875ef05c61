//! The control screen: the keys that toggle the camera and the microphone
//! and start publishing.
use vstd::prelude::*;
use crate::ingest::IngestError;

verus! {

/// The keys the control screen acts on.
#[derive(Clone, Copy, Debug, PartialEq, Eq, Structural)]
pub enum Key {
    A,
    S,
    F,
    Other,
}

/// A message for the control screen.
#[derive(Clone, Debug)]
pub enum Message {
    /// A key was released.
    KeyReleased(Key),
    /// Time to show the next preview frame.
    UpdateFrame,
    /// The ingest address to publish to has been looked up.
    StartStream(String),
    /// The ingest address could not be looked up.
    IngestFailed(IngestError),
}

impl Into<crate::view::Message> for Message {
    fn into(self) -> crate::view::Message {
        crate::view::Message::ViewMessage(crate::view::ViewMessage::Control(self))
    }
}

impl vstd::std_specs::convert::IntoSpecImpl<crate::view::Message> for Message {
    open spec fn obeys_into_spec() -> bool {
        true
    }

    open spec fn into_spec(self) -> crate::view::Message {
        crate::view::Message::ViewMessage(crate::view::ViewMessage::Control(self))
    }
}

/// What the control screen does with a message.
#[derive(Clone, Debug, PartialEq)]
pub enum ControlAction {
    ToggleCamera,
    ToggleMic,
    /// Look up the ingest address of the configured service.
    FetchIngestUrl,
    /// Start publishing to the ingest address.
    StartStream(String),
    Nothing,
}

/// Decides what the control screen does with `message`: A toggles the
/// camera, S the microphone, F looks up the ingest address, and a looked-up
/// address starts publishing.
/// A failed lookup does nothing.
pub fn decide(message: Message) -> (r: ControlAction)
    ensures
        message == Message::KeyReleased(Key::A) ==> r == ControlAction::ToggleCamera,
        message == Message::KeyReleased(Key::S) ==> r == ControlAction::ToggleMic,
        message == Message::KeyReleased(Key::F) ==> r == ControlAction::FetchIngestUrl,
        message == Message::KeyReleased(Key::Other) ==> r == ControlAction::Nothing,
        message is UpdateFrame ==> r == ControlAction::Nothing,
        message is StartStream ==> r == ControlAction::StartStream(message->StartStream_0),
        message is IngestFailed ==> r == ControlAction::Nothing,
{
    match message {
        Message::KeyReleased(Key::A) => ControlAction::ToggleCamera,
        Message::KeyReleased(Key::S) => ControlAction::ToggleMic,
        Message::KeyReleased(Key::F) => ControlAction::FetchIngestUrl,
        Message::KeyReleased(Key::Other) => ControlAction::Nothing,
        Message::UpdateFrame => ControlAction::Nothing,
        Message::StartStream(url) => ControlAction::StartStream(url),
        Message::IngestFailed(_) => ControlAction::Nothing,
    }
}

} // verus!
