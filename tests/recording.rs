use wpe_broadcast::graph::{GraphCommand, GraphState};
use wpe_broadcast::pipeline::Pipeline;
use wpe_broadcast::recording::{
    AttachAction, AttachEvent, RecordError, Recorder, RemovalAction, Rollback, Slot, TapAction,
    TapEvent, TapKind, TapStage, TapTeardown,
};
use wpe_broadcast::settings::Settings;

fn configured() -> Settings {
    let mut s = Settings::default();
    s.rtmp_location = Some("rtmp://example.org/live".to_string());
    s
}

fn playing_pipeline() -> Pipeline {
    let mut p = Pipeline::new(&Settings::default(), vec![], vec![]);
    assert_eq!(p.start(), GraphCommand::SetState(GraphState::Playing));
    p
}

fn attach_all(p: &mut Pipeline) {
    assert_eq!(p.attach(AttachEvent::BinBuilt), AttachAction::AddAndLinkVideo);
    assert_eq!(p.attach(AttachEvent::VideoLinked), AttachAction::LinkAudio);
    assert_eq!(p.attach(AttachEvent::AudioLinked), AttachAction::Run);
    assert_eq!(p.attach(AttachEvent::Running), AttachAction::Done);
}

/// Runs one tap's teardown as the idle callback would, counting releases.
fn tear_down(tap: &mut TapTeardown) -> usize {
    let mut releases = 0;
    let mut events = vec![TapEvent::StopRequested, TapEvent::IdleReached];
    let mut i = 0;
    while i < events.len() {
        match tap.step(events[i]) {
            Some(TapAction::Unlink) => events.push(TapEvent::UnlinkDone),
            Some(TapAction::Release) => {
                releases += 1;
                events.push(TapEvent::ReleaseDone);
            }
            _ => {}
        }
        i += 1;
    }
    // a late, repeated firing of the idle condition asks for nothing
    assert_eq!(tap.step(TapEvent::IdleReached), None);
    assert_eq!(tap.step(TapEvent::UnlinkDone), None);
    releases
}

#[test]
fn start_without_destination_is_configuration_error() {
    let mut p = playing_pipeline();
    let r = p.start_recording(&Settings::default());
    assert_eq!(r, Err(RecordError::Configuration));
    assert!(!p.is_recording());
    assert_eq!(p.recorder.slot, Slot::Absent);
    assert_eq!(p.graph.state, GraphState::Playing);
}

#[test]
fn start_gives_recording_description() {
    let mut p = playing_pipeline();
    let d = p.start_recording(&configured()).unwrap();
    assert!(d.contains("location=\"rtmp://example.org/live\""));
    assert!(d.starts_with("queue name=video-queue ! gldownload ! videoconvert ! video/x-raw,format=NV12"));
    assert!(p.is_recording());
}

#[test]
fn recorder_refuses_second_branch() {
    let mut r = Recorder::new();
    assert_eq!(r.begin(true), Ok(()));
    assert_eq!(r.begin(true), Err(RecordError::Busy));
    assert_eq!(r.begin(false), Err(RecordError::Configuration));
    assert_eq!(r.slot, Slot::Attaching(wpe_broadcast::recording::AttachPhase::Building));
}

#[test]
fn start_then_stop_returns_slot_to_absent() {
    let mut p = playing_pipeline();
    p.start_recording(&configured()).unwrap();
    attach_all(&mut p);
    assert_eq!(p.recorder.slot, Slot::Attached);
    assert!(p.stop_recording());
    assert_eq!(
        p.recorder.slot,
        Slot::Detaching { video_released: false, audio_released: false, bin_removed: false }
    );
    assert_eq!(p.graph.state, GraphState::Playing);
    assert_eq!(p.tap_released(TapKind::Audio), RemovalAction::RemoveAndStop);
    assert_eq!(p.graph.state, GraphState::Playing);
    assert_eq!(p.tap_released(TapKind::Video), RemovalAction::Nothing);
    assert_eq!(p.recorder.slot, Slot::Absent);
    assert_eq!(p.graph.state, GraphState::Playing);
    assert_eq!((p.graph.mixer_width, p.graph.mixer_height), (1280, 720));
}

#[test]
fn stop_without_branch_is_noop() {
    let mut p = playing_pipeline();
    assert!(!p.stop_recording());
    assert!(!p.stop_recording());
    assert_eq!(p.recorder.slot, Slot::Absent);
    assert_eq!(p.tap_released(TapKind::Video), RemovalAction::Nothing);
    assert_eq!(p.recorder.slot, Slot::Absent);
}

#[test]
fn repeated_release_report_is_ignored() {
    let mut p = playing_pipeline();
    p.start_recording(&configured()).unwrap();
    attach_all(&mut p);
    p.stop_recording();
    assert_eq!(p.tap_released(TapKind::Video), RemovalAction::RemoveAndStop);
    assert_eq!(p.tap_released(TapKind::Video), RemovalAction::Nothing);
    assert_eq!(
        p.recorder.slot,
        Slot::Detaching { video_released: true, audio_released: false, bin_removed: true }
    );
    assert_eq!(p.tap_released(TapKind::Audio), RemovalAction::Nothing);
    assert_eq!(p.recorder.slot, Slot::Absent);
}

#[test]
fn hundred_cycles_release_each_tap_once() {
    let mut p = playing_pipeline();
    for cycle in 0..100 {
        p.start_recording(&configured()).unwrap();
        attach_all(&mut p);
        let mut video = TapTeardown::new(TapKind::Video);
        let mut audio = TapTeardown::new(TapKind::Audio);
        assert!(p.stop_recording());
        assert_eq!(tear_down(&mut audio), 1);
        assert_eq!(tear_down(&mut video), 1);
        assert!(video.is_released() && audio.is_released());
        let (first, second) = if cycle % 2 == 0 {
            (TapKind::Video, TapKind::Audio)
        } else {
            (TapKind::Audio, TapKind::Video)
        };
        assert_eq!(p.tap_released(first), RemovalAction::RemoveAndStop);
        assert_eq!(p.tap_released(second), RemovalAction::Nothing);
        assert_eq!(p.recorder.slot, Slot::Absent);
    }
    assert_eq!(p.graph.state, GraphState::Playing);
}

#[test]
fn tap_teardown_follows_stages() {
    let mut t = TapTeardown::new(TapKind::Video);
    assert_eq!(t.stage, TapStage::Attached);
    assert_eq!(t.step(TapEvent::IdleReached), None);
    assert_eq!(t.step(TapEvent::StopRequested), Some(TapAction::WaitForIdle));
    assert_eq!(t.stage, TapStage::TeardownRequested);
    assert_eq!(t.step(TapEvent::ReleaseDone), None);
    assert_eq!(t.step(TapEvent::IdleReached), Some(TapAction::Unlink));
    assert_eq!(t.step(TapEvent::UnlinkDone), Some(TapAction::Release));
    assert_eq!(t.step(TapEvent::ReleaseDone), Some(TapAction::ScheduleRemoval));
    assert_eq!(t.stage, TapStage::Released);
    assert_eq!(t.step(TapEvent::StopRequested), None);
    assert_eq!(t.kind, TapKind::Video);
}

#[test]
fn failed_build_aborts_without_rollback() {
    let mut r = Recorder::new();
    assert_eq!(r.begin(true), Ok(()));
    assert_eq!(
        r.attach(AttachEvent::BinBuildFailed),
        AttachAction::Abort(
            RecordError::Build,
            Rollback { remove_bin: false, release_video: false, release_audio: false }
        )
    );
    assert_eq!(r.slot, Slot::Absent);
}

#[test]
fn failed_video_link_rolls_back() {
    let mut p = playing_pipeline();
    p.start_recording(&configured()).unwrap();
    p.attach(AttachEvent::BinBuilt);
    assert_eq!(
        p.attach(AttachEvent::VideoLinkFailed),
        AttachAction::Abort(
            RecordError::Link(TapKind::Video),
            Rollback { remove_bin: true, release_video: true, release_audio: false }
        )
    );
    assert!(!p.is_recording());
}

#[test]
fn failed_audio_link_rolls_back_both_taps() {
    let mut p = playing_pipeline();
    p.start_recording(&configured()).unwrap();
    p.attach(AttachEvent::BinBuilt);
    p.attach(AttachEvent::VideoLinked);
    assert_eq!(
        p.attach(AttachEvent::AudioLinkFailed),
        AttachAction::Abort(
            RecordError::Link(TapKind::Audio),
            Rollback { remove_bin: true, release_video: true, release_audio: true }
        )
    );
    assert!(!p.is_recording());
}

#[test]
fn failed_run_rolls_back_both_taps() {
    let mut p = playing_pipeline();
    p.start_recording(&configured()).unwrap();
    p.attach(AttachEvent::BinBuilt);
    p.attach(AttachEvent::VideoLinked);
    p.attach(AttachEvent::AudioLinked);
    assert_eq!(
        p.attach(AttachEvent::RunFailed),
        AttachAction::Abort(
            RecordError::Start,
            Rollback { remove_bin: true, release_video: true, release_audio: true }
        )
    );
    assert!(!p.is_recording());
    assert_eq!(p.attach(AttachEvent::Running), AttachAction::Ignore);
}

#[test]
fn out_of_order_attach_event_is_ignored() {
    let mut p = playing_pipeline();
    assert_eq!(p.attach(AttachEvent::BinBuilt), AttachAction::Ignore);
    p.start_recording(&configured()).unwrap();
    assert_eq!(p.attach(AttachEvent::AudioLinked), AttachAction::Ignore);
    assert_eq!(p.recorder.slot, Slot::Attaching(wpe_broadcast::recording::AttachPhase::Building));
}
