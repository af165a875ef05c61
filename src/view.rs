//! The screens of the terminal and how messages are routed between them.
use vstd::prelude::*;

pub mod control;
pub mod setting;
pub mod ingests;
pub mod route;

verus! {

/// The screen on show.
#[derive(Clone, Copy, Debug, PartialEq, Eq, Structural)]
pub enum View {
    Control,
    Setting,
    Ingests,
}

/// A message for one of the screens.
#[derive(Clone, Debug)]
pub enum ViewMessage {
    Control(control::Message),
    Setting(setting::Message),
    Ingests(ingests::Message),
}

/// A message of the application.
#[derive(Clone, Debug)]
pub enum Message {
    /// Show another screen.
    ChangeView(View),
    /// Start publishing.
    StartStream,
    /// A message for a screen.
    ViewMessage(ViewMessage),
}

impl Into<Message> for ViewMessage {
    fn into(self) -> Message {
        Message::ViewMessage(self)
    }
}

impl vstd::std_specs::convert::IntoSpecImpl<Message> for ViewMessage {
    open spec fn obeys_into_spec() -> bool {
        true
    }

    open spec fn into_spec(self) -> Message {
        Message::ViewMessage(self)
    }
}

/// What a change of screen asks for.
#[derive(Clone, Copy, Debug, PartialEq, Eq, Structural)]
pub enum ViewAction {
    /// Fetch the ingest list for the ingest screen.
    FetchIngests,
    /// Refresh the setting screen from the settings.
    RefreshSetting,
    /// Reload the settings into the control screen.
    ReloadSetting,
    /// Nothing.
    Nothing,
}

/// What changing from screen `prev` to screen `next` asks for: the ingest
/// screen fetches its list, the setting screen is refreshed when it is
/// reached from the ingest screen, and the control screen reloads the
/// settings.
pub fn change_view(prev: View, next: View) -> (r: ViewAction)
    ensures
        next == View::Ingests ==> r == ViewAction::FetchIngests,
        next == View::Setting && prev == View::Ingests ==> r == ViewAction::RefreshSetting,
        next == View::Setting && prev != View::Ingests ==> r == ViewAction::Nothing,
        next == View::Control ==> r == ViewAction::ReloadSetting,
{
    match next {
        View::Ingests => ViewAction::FetchIngests,
        View::Setting => match prev {
            View::Ingests => ViewAction::RefreshSetting,
            _ => ViewAction::Nothing,
        },
        View::Control => ViewAction::ReloadSetting,
    }
}

} // verus!
