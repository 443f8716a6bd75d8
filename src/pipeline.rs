use vstd::prelude::*;

use crate::dispatch::{dispatch, spec_dispatched, BusMessage, UiCall};
use crate::graph::{
    is_refresh_plan, refresh_plan, spec_apply, spec_apply_all, GraphCommand, GraphModel,
    GraphState,
};
use crate::overlay::{
    brace_free, lookup, one_placeholder, render_overlay, spec_overlay_vars, spec_render,
    OverlayError,
};
use crate::recording::{
    spec_attach, spec_begin, spec_stop, spec_tap_released, AttachAction, AttachEvent,
    AttachPhase, RecordError, Recorder, RemovalAction, Slot, TapKind,
};
use crate::settings::{spec_dimensions, Settings};
use crate::topology::{
    main_description, recording_description, spec_camera_caps, spec_main_description,
    spec_overlay_caps, spec_recording_description,
};

verus! {

/// The orchestrator of the media graph: what it knows of the main graph's
/// parameters, the recording-branch slot, and the two logos embedded in the
/// overlay. Every method returns what the caller must carry out on the real
/// graph, and records its effect.
pub struct Pipeline {
    pub graph: GraphModel,
    pub recorder: Recorder,
    pub logo_primary: Vec<u8>,
    pub logo_secondary: Vec<u8>,
}

impl Pipeline {
    pub open spec fn wf(&self) -> bool {
        &&& self.recorder.wf()
        &&& self.logo_primary@.len() <= usize::MAX / 2
        &&& self.logo_secondary@.len() <= usize::MAX / 2
    }

    /// A pipeline built for the configured resolution, not yet running, with
    /// no recording branch.
    pub fn new(settings: &Settings, logo_primary: Vec<u8>, logo_secondary: Vec<u8>) -> (r: Pipeline)
        requires
            logo_primary@.len() <= usize::MAX / 2,
            logo_secondary@.len() <= usize::MAX / 2,
        ensures
            r.wf(),
            r.graph.state == GraphState::Null,
            (r.graph.mixer_width, r.graph.mixer_height) == spec_dimensions(settings.video_resolution),
            r.graph.camera_caps@ == spec_camera_caps(r.graph.mixer_width, r.graph.mixer_height),
            r.graph.overlay_caps@ == spec_overlay_caps(r.graph.mixer_width, r.graph.mixer_height),
            r.recorder.slot is Absent,
            r.logo_primary@ == logo_primary@,
            r.logo_secondary@ == logo_secondary@,
    {
        Pipeline {
            graph: GraphModel::new(settings.video_resolution),
            recorder: Recorder::new(),
            logo_primary,
            logo_secondary,
        }
    }

    /// Textual description of the main graph at the current resolution.
    pub fn description(&self) -> (r: String)
        ensures
            r@ == spec_main_description(self.graph.mixer_width, self.graph.mixer_height),
    {
        main_description(self.graph.mixer_width, self.graph.mixer_height)
    }

    /// Moves the graph to the configured resolution: the commands to carry
    /// out in order, whose effect is recorded. The recording slot is left
    /// as it is.
    pub fn refresh(&mut self, settings: &Settings) -> (r: Vec<GraphCommand>)
        ensures
            is_refresh_plan(r@, settings.video_resolution),
            final(self).graph@ == spec_apply_all(old(self).graph@, r@),
            final(self).graph.state == GraphState::Playing,
            (final(self).graph.mixer_width, final(self).graph.mixer_height) == spec_dimensions(settings.video_resolution),
            final(self).recorder == old(self).recorder,
            final(self).logo_primary == old(self).logo_primary,
            final(self).logo_secondary == old(self).logo_secondary,
    {
        let plan = refresh_plan(settings.video_resolution);
        self.graph.apply_all(&plan);
        proof {
            crate::graph::lemma_refresh_leaves_playing(old(self).graph@, settings.video_resolution, plan@);
        }
        plan
    }

    /// Sets the whole graph playing.
    pub fn start(&mut self) -> (r: GraphCommand)
        ensures
            r == GraphCommand::SetState(GraphState::Playing),
            final(self).graph@ == spec_apply(old(self).graph@, r),
            final(self).recorder == old(self).recorder,
            final(self).logo_primary == old(self).logo_primary,
            final(self).logo_secondary == old(self).logo_secondary,
    {
        let c = GraphCommand::SetState(GraphState::Playing);
        self.graph.apply(&c);
        c
    }

    /// Stops the whole graph.
    pub fn stop(&mut self) -> (r: GraphCommand)
        ensures
            r == GraphCommand::SetState(GraphState::Null),
            final(self).graph@ == spec_apply(old(self).graph@, r),
            final(self).recorder == old(self).recorder,
            final(self).logo_primary == old(self).logo_primary,
            final(self).logo_secondary == old(self).logo_secondary,
    {
        let c = GraphCommand::SetState(GraphState::Null);
        self.graph.apply(&c);
        c
    }

    /// Begins to record to the configured destination, while no recording
    /// branch is present. Without a destination it fails with
    /// `Configuration` and changes nothing. Otherwise it gives the
    /// description of the recording sub-graph to build, and the attach
    /// continues with `attach`.
    pub fn start_recording(&mut self, settings: &Settings) -> (r: Result<String, RecordError>)
        requires
            old(self).wf(),
            old(self).recorder.slot is Absent,
        ensures
            final(self).wf(),
            final(self).graph == old(self).graph,
            final(self).logo_primary == old(self).logo_primary,
            final(self).logo_secondary == old(self).logo_secondary,
            final(self).recorder == spec_begin(old(self).recorder, settings.rtmp_location is Some).0,
            settings.rtmp_location is None ==> r == Err::<String, RecordError>(RecordError::Configuration) && final(self).recorder == old(self).recorder,
            settings.rtmp_location is Some ==> r is Ok && r->Ok_0@ == spec_recording_description(settings.rtmp_location->0@, settings.h264_encoder@),
            settings.rtmp_location is Some ==> final(self).recorder.slot == Slot::Attaching(AttachPhase::Building),
    {
        match &settings.rtmp_location {
            None => Err(RecordError::Configuration),
            Some(location) => {
                let _ = self.recorder.begin(true);
                Ok(recording_description(location.as_str(), settings.h264_encoder.as_str()))
            },
        }
    }

    /// Takes the outcome of one attach step and says what to do next.
    pub fn attach(&mut self, e: AttachEvent) -> (r: AttachAction)
        requires
            old(self).wf(),
        ensures
            final(self).wf(),
            final(self).graph == old(self).graph,
            final(self).logo_primary == old(self).logo_primary,
            final(self).logo_secondary == old(self).logo_secondary,
            (final(self).recorder, r) == spec_attach(old(self).recorder, e),
    {
        self.recorder.attach(e)
    }

    /// Stops recording: an attached branch begins its teardown and `true`
    /// says that both taps are to wait for their idle condition. Without an
    /// attached branch nothing changes and the result is `false`.
    pub fn stop_recording(&mut self) -> (r: bool)
        requires
            old(self).wf(),
        ensures
            final(self).wf(),
            final(self).graph == old(self).graph,
            final(self).logo_primary == old(self).logo_primary,
            final(self).logo_secondary == old(self).logo_secondary,
            (final(self).recorder, r) == spec_stop(old(self).recorder),
            !(old(self).recorder.slot is Attached) ==> !r && final(self).recorder == old(self).recorder,
    {
        self.recorder.stop()
    }

    /// Takes the report, run on the control thread, that a tap was released.
    pub fn tap_released(&mut self, k: TapKind) -> (r: RemovalAction)
        requires
            old(self).wf(),
        ensures
            final(self).wf(),
            final(self).graph == old(self).graph,
            final(self).logo_primary == old(self).logo_primary,
            final(self).logo_secondary == old(self).logo_secondary,
            (final(self).recorder, r) == spec_tap_released(old(self).recorder, k),
    {
        self.recorder.tap_released(k)
    }

    /// Whether a recording branch is present or on its way.
    pub fn is_recording(&self) -> (r: bool)
        ensures
            r == !(self.recorder.slot is Absent),
    {
        !self.recorder.is_absent()
    }

    /// Renders the overlay document to load into the web source.
    pub fn update_overlay(&self, html: &str, css: &str) -> (r: Result<String, OverlayError>)
        requires
            self.wf(),
        ensures
            r is Ok <==> spec_render(html@, css@, self.logo_primary@, self.logo_secondary@) is Some,
            r is Ok ==> r->Ok_0@ == spec_render(html@, css@, self.logo_primary@, self.logo_secondary@)->0,
            r is Err ==> r == Err::<String, OverlayError>(OverlayError::Template),
            brace_free(html@) ==> r is Ok && r->Ok_0@ == html@,
            forall|pre: Seq<char>, key: Seq<char>, post: Seq<char>|
                #[trigger] one_placeholder(html@, pre, key, post) ==> match lookup(spec_overlay_vars(css@, self.logo_primary@, self.logo_secondary@), key) {
                    Some(v) => r is Ok && r->Ok_0@ == pre + v + post,
                    None => r is Err,
                },
    {
        render_overlay(html, css, self.logo_primary.as_slice(), self.logo_secondary.as_slice())
    }

    /// Decides what the user interface does about a notification.
    pub fn on_pipeline_message(&self, msg: &BusMessage) -> (r: UiCall)
        ensures
            spec_dispatched(*msg, r),
    {
        dispatch(msg)
    }
}

} // verus!
