use wpe_broadcast::actions::{Action, RecordState};
use wpe_broadcast::dispatch::{
    dispatch, start_failure_text, stop_warning, transition_name, BusMessage, UiCall,
};
use wpe_broadcast::graph::GraphState;
use wpe_broadcast::pipeline::Pipeline;
use wpe_broadcast::recording::{RecordError, TapKind};
use wpe_broadcast::settings::Settings;

fn shown(c: UiCall) -> (bool, String) {
    match c {
        UiCall::ShowError { fatal, text } => (fatal, text),
        other => panic!("expected an error call, got {:?}", other),
    }
}

#[test]
fn error_message_is_fatal() {
    let msg = BusMessage::Error {
        source: "Some(\"/pipeline0/v4l2src\")".to_string(),
        text: "Device busy".to_string(),
        debug: "None".to_string(),
    };
    let (fatal, text) = shown(dispatch(&msg));
    assert!(fatal);
    assert_eq!(text, "Error from Some(\"/pipeline0/v4l2src\"): Device busy (None)");
}

#[test]
fn own_warning_is_not_fatal() {
    let msg = stop_warning("state change failed");
    let p = Pipeline::new(&Settings::default(), vec![], vec![]);
    let (fatal, text) = shown(p.on_pipeline_message(&msg));
    assert!(!fatal);
    assert_eq!(text, "Failed to stop recording: state change failed");
}

#[test]
fn other_application_message_is_ignored() {
    let msg = BusMessage::Application { name: "note".to_string(), text: "x".to_string() };
    assert!(matches!(dispatch(&msg), UiCall::Ignore));
}

#[test]
fn level_sample_updates_meter() {
    assert!(matches!(dispatch(&BusMessage::Element { name: "level".to_string() }), UiCall::UpdateLevels));
    assert!(matches!(dispatch(&BusMessage::Element { name: "spectrum".to_string() }), UiCall::Ignore));
}

#[test]
fn state_changes_are_snapshotted() {
    let msg = BusMessage::StateChanged { from_main_graph: true, old: GraphState::Paused, current: GraphState::Playing };
    match dispatch(&msg) {
        UiCall::DumpGraph(n) => assert_eq!(n, "gst-wpe-broadcast-demo-Paused_to_Playing"),
        other => panic!("unexpected {:?}", other),
    }
    let msg = BusMessage::StateChanged { from_main_graph: false, old: GraphState::Null, current: GraphState::Ready };
    assert!(matches!(dispatch(&msg), UiCall::Ignore));
    match dispatch(&BusMessage::AsyncDone { from_graph: true }) {
        UiCall::DumpGraph(n) => assert_eq!(n, "gst-wpe-broadcast-demo-async-done"),
        other => panic!("unexpected {:?}", other),
    }
    assert!(matches!(dispatch(&BusMessage::Other), UiCall::Ignore));
    assert_eq!(transition_name(GraphState::VoidPending, GraphState::Null), "gst-wpe-broadcast-demo-VoidPending_to_Null");
}

#[test]
fn start_failure_texts() {
    assert_eq!(
        start_failure_text(RecordError::Configuration, None),
        "Failed to start recording: Please set the RTMP end-point URL in the settings"
    );
    assert_eq!(
        start_failure_text(RecordError::Link(TapKind::Audio), None),
        "Failed to start recording: Failed to link recording bin audio branch"
    );
    assert_eq!(
        start_failure_text(RecordError::Build, Some("no element \"x264\"")),
        "Failed to start recording: Failed to create recording pipeline: no element \"x264\""
    );
}

#[test]
fn action_names() {
    assert_eq!(Action::Quit.full_name(), "app.quit");
    assert_eq!(Action::Settings.full_name(), "app.settings");
    assert_eq!(Action::About.full_name(), "app.about");
    assert_eq!(Action::Record(RecordState::Idle).full_name(), "app.record");
    assert_eq!(Action::UpdateOverlay.full_name(), "app.update_overlay");
    assert_eq!(Action::UpdateOverlay.short_name(), "update_overlay");
}

#[test]
fn record_state_from_bool() {
    assert_eq!(RecordState::from(true), RecordState::Recording);
    assert_eq!(RecordState::from(false), RecordState::Idle);
    assert!(RecordState::Recording.is_active());
    assert!(!RecordState::Idle.is_active());
}
