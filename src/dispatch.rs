use vstd::prelude::*;

use crate::graph::GraphState;
use crate::recording::{RecordError, TapKind};
use crate::text::same_text;

verus! {

/// Structure name of the warnings that the orchestrator posts to itself.
pub const WARNING_NAME: &'static str = "warning";
/// Field of such a warning that holds its text.
pub const WARNING_TEXT_FIELD: &'static str = "text";
/// Structure name of the metering stage's samples.
pub const LEVEL_NAME: &'static str = "level";

/// A notification from the running graph, as the dispatcher reads it.
#[derive(Debug, Clone)]
pub enum BusMessage {
    /// A graph-internal failure: the path of the failing stage, the error
    /// text and the debug detail, each already rendered.
    Error { source: String, text: String, debug: String },
    /// A notification posted by the application itself.
    Application { name: String, text: String },
    /// A notification from a stage, by structure name.
    Element { name: String },
    /// A state change, and whether the main graph itself changed.
    StateChanged { from_main_graph: bool, old: GraphState, current: GraphState },
    /// An asynchronous state change completed, and whether a graph sent it.
    AsyncDone { from_graph: bool },
    /// Anything else.
    Other,
}

/// What the user interface is to do about a notification.
#[derive(Debug, Clone)]
pub enum UiCall {
    /// Show a failure; a fatal one ends the current run.
    ShowError { fatal: bool, text: String },
    /// Forward the sample's three sequences to the level display.
    UpdateLevels,
    /// Write a snapshot of the graph's topology under the given name.
    DumpGraph(String),
    /// Nothing to do.
    Ignore,
}

/// Name under which a state is written.
pub open spec fn spec_state_name(s: GraphState) -> Seq<char> {
    match s {
        GraphState::VoidPending => "VoidPending"@,
        GraphState::Null => "Null"@,
        GraphState::Ready => "Ready"@,
        GraphState::Paused => "Paused"@,
        GraphState::Playing => "Playing"@,
    }
}

/// Writes the name of a state.
pub fn state_name(s: GraphState) -> (r: &'static str)
    ensures
        r@ == spec_state_name(s),
{
    match s {
        GraphState::VoidPending => "VoidPending",
        GraphState::Null => "Null",
        GraphState::Ready => "Ready",
        GraphState::Paused => "Paused",
        GraphState::Playing => "Playing",
    }
}

/// Text shown for a graph-internal failure.
pub open spec fn spec_error_text(source: Seq<char>, text: Seq<char>, debug: Seq<char>) -> Seq<char> {
    "Error from "@ + source + ": "@ + text + " ("@ + debug + ")"@
}

/// Snapshot name for a state change of the main graph.
pub open spec fn spec_transition_name(old: GraphState, current: GraphState) -> Seq<char> {
    "gst-wpe-broadcast-demo-"@ + spec_state_name(old) + "_to_"@ + spec_state_name(current)
}

/// Snapshot name for a completed asynchronous state change.
pub open spec fn spec_async_done_name() -> Seq<char> {
    "gst-wpe-broadcast-demo-async-done"@
}

/// Builds the text shown for a graph-internal failure.
pub fn error_text(source: &str, text: &str, debug: &str) -> (r: String)
    ensures
        r@ == spec_error_text(source@, text@, debug@),
{
    let r = String::from_str("Error from ").concat(source).concat(": ").concat(text).concat(" (").concat(debug).concat(")");
    proof {
        assert(r@ =~= spec_error_text(source@, text@, debug@));
    }
    r
}

/// Builds the snapshot name for a state change of the main graph.
pub fn transition_name(old: GraphState, current: GraphState) -> (r: String)
    ensures
        r@ == spec_transition_name(old, current),
{
    let r = String::from_str("gst-wpe-broadcast-demo-").concat(state_name(old)).concat("_to_").concat(state_name(current));
    proof {
        assert(r@ =~= spec_transition_name(old, current));
    }
    r
}

/// Text of the warning posted when a removed recording branch could not be
/// stopped.
pub open spec fn spec_stop_warning_text(reason: Seq<char>) -> Seq<char> {
    "Failed to stop recording: "@ + reason
}

/// Builds the text of the warning posted when a removed recording branch
/// could not be stopped.
pub fn stop_warning_text(reason: &str) -> (r: String)
    ensures
        r@ == spec_stop_warning_text(reason@),
{
    let r = String::from_str("Failed to stop recording: ").concat(reason);
    proof {
        assert(r@ =~= spec_stop_warning_text(reason@));
    }
    r
}

/// The warning that the teardown path posts onto the graph's own
/// notification channel instead of calling the user interface.
pub fn stop_warning(reason: &str) -> (r: BusMessage)
    ensures
        r matches BusMessage::Application { name, text } && name@ == WARNING_NAME@ && text@ == spec_stop_warning_text(reason@),
{
    BusMessage::Application { name: String::from_str(WARNING_NAME), text: stop_warning_text(reason) }
}

/// Description of a failed start.
pub open spec fn spec_record_error_text(e: RecordError) -> Seq<char> {
    match e {
        RecordError::Configuration => "Please set the RTMP end-point URL in the settings"@,
        RecordError::Busy => "A recording branch is already present"@,
        RecordError::Build => "Failed to create recording pipeline"@,
        RecordError::Link(TapKind::Video) => "Failed to link recording bin video branch"@,
        RecordError::Link(TapKind::Audio) => "Failed to link recording bin audio branch"@,
        RecordError::Start => "Failed to start recording"@,
    }
}

/// Describes a failed start.
pub fn record_error_text(e: RecordError) -> (r: &'static str)
    ensures
        r@ == spec_record_error_text(e),
{
    match e {
        RecordError::Configuration => "Please set the RTMP end-point URL in the settings",
        RecordError::Busy => "A recording branch is already present",
        RecordError::Build => "Failed to create recording pipeline",
        RecordError::Link(TapKind::Video) => "Failed to link recording bin video branch",
        RecordError::Link(TapKind::Audio) => "Failed to link recording bin audio branch",
        RecordError::Start => "Failed to start recording",
    }
}

/// `r` is the user-interface call for `msg`: failures are fatal, the
/// orchestrator's own warnings are not, level samples go to the level
/// display, state changes of the main graph and completed asynchronous
/// changes are snapshotted, and the rest is ignored.
pub open spec fn spec_dispatched(msg: BusMessage, r: UiCall) -> bool {
    &&& (msg matches BusMessage::Error { source, text, debug } ==> r matches UiCall::ShowError { fatal, text: t } && fatal && t@ == spec_error_text(source@, text@, debug@))
    &&& (msg matches BusMessage::Application { name, text } ==> if name@ == WARNING_NAME@ {
            r matches UiCall::ShowError { fatal, text: t } && !fatal && t@ == text@
        } else {
            r is Ignore
        })
    &&& (msg matches BusMessage::Element { name } ==> if name@ == LEVEL_NAME@ { r is UpdateLevels } else { r is Ignore })
    &&& (msg matches BusMessage::StateChanged { from_main_graph, old, current } ==> if from_main_graph {
            r matches UiCall::DumpGraph(n) && n@ == spec_transition_name(old, current)
        } else {
            r is Ignore
        })
    &&& (msg matches BusMessage::AsyncDone { from_graph } ==> if from_graph {
            r matches UiCall::DumpGraph(n) && n@ == spec_async_done_name()
        } else {
            r is Ignore
        })
    &&& (msg is Other ==> r is Ignore)
}

/// Decides what the user interface does about a notification.
pub fn dispatch(msg: &BusMessage) -> (r: UiCall)
    ensures
        spec_dispatched(*msg, r),
{
    match msg {
        BusMessage::Error { source, text, debug } => UiCall::ShowError {
            fatal: true,
            text: error_text(source.as_str(), text.as_str(), debug.as_str()),
        },
        BusMessage::Application { name, text } => {
            if same_text(name.as_str(), WARNING_NAME) {
                UiCall::ShowError { fatal: false, text: text.clone() }
            } else {
                UiCall::Ignore
            }
        },
        BusMessage::Element { name } => {
            if same_text(name.as_str(), LEVEL_NAME) {
                UiCall::UpdateLevels
            } else {
                UiCall::Ignore
            }
        },
        BusMessage::StateChanged { from_main_graph, old, current } => {
            if *from_main_graph {
                UiCall::DumpGraph(transition_name(*old, *current))
            } else {
                UiCall::Ignore
            }
        },
        BusMessage::AsyncDone { from_graph } => {
            if *from_graph {
                UiCall::DumpGraph(String::from_str("gst-wpe-broadcast-demo-async-done"))
            } else {
                UiCall::Ignore
            }
        },
        BusMessage::Other => UiCall::Ignore,
    }
}

/// Text shown when recording could not start, with the media framework's
/// own account of the failure where it gave one.
pub open spec fn spec_start_failure_text(e: RecordError, detail: Option<Seq<char>>) -> Seq<char> {
    match detail {
        None => "Failed to start recording: "@ + spec_record_error_text(e),
        Some(d) => "Failed to start recording: "@ + spec_record_error_text(e) + ": "@ + d,
    }
}

/// Builds the text shown when recording could not start.
pub fn start_failure_text(e: RecordError, detail: Option<&str>) -> (r: String)
    ensures
        r@ == spec_start_failure_text(e, match detail { None => None, Some(d) => Some(d@) }),
{
    let head = String::from_str("Failed to start recording: ").concat(record_error_text(e));
    match detail {
        None => {
            proof {
                assert(head@ =~= spec_start_failure_text(e, None));
            }
            head
        },
        Some(d) => {
            let r = head.concat(": ").concat(d);
            proof {
                assert(r@ =~= spec_start_failure_text(e, Some(d@)));
            }
            r
        },
    }
}

} // verus!
