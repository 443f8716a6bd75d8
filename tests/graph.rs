use wpe_broadcast::graph::{refresh_plan, GraphCommand, GraphState};
use wpe_broadcast::pipeline::Pipeline;
use wpe_broadcast::settings::{Settings, VideoResolution};

#[test]
fn refresh_plays_at_each_resolution() {
    let mut p = Pipeline::new(&Settings::default(), vec![], vec![]);
    for res in [VideoResolution::V480P, VideoResolution::V720P, VideoResolution::V1080P, VideoResolution::V480P] {
        let mut s = Settings::default();
        s.video_resolution = res;
        let cmds = p.refresh(&s);
        assert_eq!(cmds.len(), 6);
        assert_eq!(p.graph.state, GraphState::Playing);
        assert_eq!((p.graph.mixer_width, p.graph.mixer_height), res.dimensions());
        let (w, h) = res.dimensions();
        assert_eq!(p.graph.camera_caps, format!("image/jpeg,width={},height={},framerate=30/1", w, h));
    }
}

#[test]
fn refresh_plan_brackets_with_pause_and_resume() {
    let plan = refresh_plan(VideoResolution::V1080P);
    assert_eq!(plan[0], GraphCommand::SetState(GraphState::Paused));
    assert_eq!(plan[1], GraphCommand::SetCameraCaps("image/jpeg,width=1920,height=1080,framerate=30/1".to_string()));
    assert_eq!(
        plan[2],
        GraphCommand::SetOverlayCaps(
            "video/x-raw(memory:GLMemory),width=1920,height=1080,pixel-aspect-ratio=(fraction)1/1".to_string()
        )
    );
    assert_eq!(plan[3], GraphCommand::SetMixerSize(1920, 1080));
    assert_eq!(plan[4], GraphCommand::Reconfigure);
    assert_eq!(plan[5], GraphCommand::SetState(GraphState::Playing));
}

#[test]
fn new_pipeline_is_stopped_and_sized() {
    let mut s = Settings::default();
    s.video_resolution = VideoResolution::V480P;
    let mut p = Pipeline::new(&s, vec![], vec![]);
    assert_eq!(p.graph.state, GraphState::Null);
    assert_eq!((p.graph.mixer_width, p.graph.mixer_height), (640, 480));
    assert!(p.description().starts_with("glvideomixerelement name=mixer sink_1::zorder=0 sink_1::height=480 sink_1::width=640 "));
    p.start();
    assert_eq!(p.graph.state, GraphState::Playing);
    assert_eq!(p.stop(), GraphCommand::SetState(GraphState::Null));
    assert_eq!(p.graph.state, GraphState::Null);
}
