use vstd::prelude::*;

verus! {

/// Whether the user asked for recording.
#[derive(Debug, Clone, Copy, PartialEq, Eq, Structural)]
pub enum RecordState {
    Idle,
    Recording,
}

impl From<bool> for RecordState {
    fn from(v: bool) -> (r: RecordState) {
        if v {
            RecordState::Recording
        } else {
            RecordState::Idle
        }
    }
}

impl vstd::std_specs::convert::FromSpecImpl<bool> for RecordState {
    open spec fn obeys_from_spec() -> bool {
        true
    }

    open spec fn from_spec(v: bool) -> RecordState {
        if v {
            RecordState::Recording
        } else {
            RecordState::Idle
        }
    }
}

impl RecordState {
    /// The toggle position that stands for this state.
    pub fn is_active(self) -> (r: bool)
        ensures
            r == (self == RecordState::Recording),
    {
        match self {
            RecordState::Idle => false,
            RecordState::Recording => true,
        }
    }
}

/// The application's user-triggerable actions.
#[derive(Debug, Clone, Copy, PartialEq, Eq, Structural)]
pub enum Action {
    Quit,
    Settings,
    About,
    Record(RecordState),
    UpdateOverlay,
}

/// Full name of an action, as menus refer to it.
pub open spec fn spec_full_name(a: Action) -> Seq<char> {
    match a {
        Action::Quit => "app.quit"@,
        Action::Settings => "app.settings"@,
        Action::About => "app.about"@,
        Action::Record(_) => "app.record"@,
        Action::UpdateOverlay => "app.update_overlay"@,
    }
}

/// Short name of an action, under which it is registered.
pub open spec fn spec_short_name(a: Action) -> Seq<char> {
    match a {
        Action::Quit => "quit"@,
        Action::Settings => "settings"@,
        Action::About => "about"@,
        Action::Record(_) => "record"@,
        Action::UpdateOverlay => "update_overlay"@,
    }
}

impl Action {
    /// The full action name as used in menu models.
    pub fn full_name(self) -> (r: &'static str)
        ensures
            r@ == spec_full_name(self),
    {
        match self {
            Action::Quit => "app.quit",
            Action::Settings => "app.settings",
            Action::About => "app.about",
            Action::Record(_) => "app.record",
            Action::UpdateOverlay => "app.update_overlay",
        }
    }

    /// The name under which the action is registered and triggered.
    pub fn short_name(self) -> (r: &'static str)
        ensures
            r@ == spec_short_name(self),
    {
        match self {
            Action::Quit => "quit",
            Action::Settings => "settings",
            Action::About => "about",
            Action::Record(_) => "record",
            Action::UpdateOverlay => "update_overlay",
        }
    }
}

} // verus!
