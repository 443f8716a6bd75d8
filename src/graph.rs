use vstd::prelude::*;

use crate::settings::{spec_dimensions, VideoResolution};
use crate::topology::{camera_caps, overlay_caps, spec_camera_caps, spec_overlay_caps};

verus! {

/// Run state of a graph or sub-graph.
#[derive(Debug, Clone, Copy, PartialEq, Eq, Structural)]
pub enum GraphState {
    VoidPending,
    Null,
    Ready,
    Paused,
    Playing,
}

/// One change to the running main graph.
#[derive(Debug, Clone, PartialEq, Eq)]
pub enum GraphCommand {
    /// Rewrite the caps of the camera's capability filter.
    SetCameraCaps(String),
    /// Rewrite the caps of the web source's capability filter.
    SetOverlayCaps(String),
    /// Set the width and height of the mixer's overlay input.
    SetMixerSize(u32, u32),
    /// Request a state change of the whole graph.
    SetState(GraphState),
    /// Send a renegotiation event into the display sink.
    Reconfigure,
}

/// What the orchestrator knows of the main graph's parameters.
pub struct GraphModel {
    pub state: GraphState,
    pub mixer_width: u32,
    pub mixer_height: u32,
    pub camera_caps: String,
    pub overlay_caps: String,
}

/// The parameters of a `GraphModel`, as values.
pub struct GraphView {
    pub state: GraphState,
    pub mixer_width: u32,
    pub mixer_height: u32,
    pub camera_caps: Seq<char>,
    pub overlay_caps: Seq<char>,
}

impl View for GraphModel {
    type V = GraphView;

    open spec fn view(&self) -> GraphView {
        GraphView {
            state: self.state,
            mixer_width: self.mixer_width,
            mixer_height: self.mixer_height,
            camera_caps: self.camera_caps@,
            overlay_caps: self.overlay_caps@,
        }
    }
}

/// The effect of one command on the graph's parameters.
pub open spec fn spec_apply(g: GraphView, c: GraphCommand) -> GraphView {
    match c {
        GraphCommand::SetCameraCaps(s) => GraphView { camera_caps: s@, ..g },
        GraphCommand::SetOverlayCaps(s) => GraphView { overlay_caps: s@, ..g },
        GraphCommand::SetMixerSize(w, h) => GraphView { mixer_width: w, mixer_height: h, ..g },
        GraphCommand::SetState(s) => GraphView { state: s, ..g },
        GraphCommand::Reconfigure => g,
    }
}

/// The effect of commands applied in order.
pub open spec fn spec_apply_all(g: GraphView, cs: Seq<GraphCommand>) -> GraphView
    decreases cs.len(),
{
    if cs.len() == 0 {
        g
    } else {
        spec_apply(spec_apply_all(g, cs.drop_last()), cs.last())
    }
}

/// `cs` is the reconfiguration for resolution `res`: new caps for both
/// capture filters, new overlay geometry for the mixer, all bracketed by a
/// pause, a renegotiation of the display sink, and a resume.
pub open spec fn is_refresh_plan(cs: Seq<GraphCommand>, res: VideoResolution) -> bool {
    let (w, h) = spec_dimensions(res);
    &&& cs.len() == 6
    &&& cs[0] is SetState && cs[0]->SetState_0 == GraphState::Paused
    &&& cs[1] is SetCameraCaps && cs[1]->SetCameraCaps_0@ == spec_camera_caps(w, h)
    &&& cs[2] is SetOverlayCaps && cs[2]->SetOverlayCaps_0@ == spec_overlay_caps(w, h)
    &&& cs[3] == GraphCommand::SetMixerSize(w, h)
    &&& cs[4] is Reconfigure
    &&& cs[5] is SetState && cs[5]->SetState_0 == GraphState::Playing
}

impl GraphModel {
    /// A graph described for resolution `res`, not yet running.
    pub fn new(res: VideoResolution) -> (r: GraphModel)
        ensures
            r.state == GraphState::Null,
            (r.mixer_width, r.mixer_height) == spec_dimensions(res),
            r.camera_caps@ == spec_camera_caps(r.mixer_width, r.mixer_height),
            r.overlay_caps@ == spec_overlay_caps(r.mixer_width, r.mixer_height),
    {
        let (w, h) = res.dimensions();
        GraphModel {
            state: GraphState::Null,
            mixer_width: w,
            mixer_height: h,
            camera_caps: camera_caps(w, h),
            overlay_caps: overlay_caps(w, h),
        }
    }

    /// Records the effect of `c`.
    pub fn apply(&mut self, c: &GraphCommand)
        ensures
            final(self)@ == spec_apply(old(self)@, *c),
    {
        match c {
            GraphCommand::SetCameraCaps(s) => {
                self.camera_caps = s.clone();
            },
            GraphCommand::SetOverlayCaps(s) => {
                self.overlay_caps = s.clone();
            },
            GraphCommand::SetMixerSize(w, h) => {
                self.mixer_width = *w;
                self.mixer_height = *h;
            },
            GraphCommand::SetState(s) => {
                self.state = *s;
            },
            GraphCommand::Reconfigure => {},
        }
    }

    /// Records the effect of `cs`, in order.
    pub fn apply_all(&mut self, cs: &Vec<GraphCommand>)
        ensures
            final(self)@ == spec_apply_all(old(self)@, cs@),
    {
        let mut i: usize = 0;
        while i < cs.len()
            invariant
                i <= cs@.len(),
                self@ == spec_apply_all(old(self)@, cs@.subrange(0, i as int)),
            decreases cs@.len() - i,
        {
            self.apply(&cs[i]);
            proof {
                let s = cs@.subrange(0, i + 1);
                assert(s.drop_last() =~= cs@.subrange(0, i as int));
                assert(s.last() == cs@[i as int]);
            }
            i = i + 1;
        }
        proof {
            assert(cs@.subrange(0, cs@.len() as int) =~= cs@);
        }
    }
}

/// The commands that move the main graph to resolution `res`.
pub fn refresh_plan(res: VideoResolution) -> (r: Vec<GraphCommand>)
    ensures
        is_refresh_plan(r@, res),
{
    let (w, h) = res.dimensions();
    let mut r: Vec<GraphCommand> = Vec::new();
    r.push(GraphCommand::SetState(GraphState::Paused));
    r.push(GraphCommand::SetCameraCaps(camera_caps(w, h)));
    r.push(GraphCommand::SetOverlayCaps(overlay_caps(w, h)));
    r.push(GraphCommand::SetMixerSize(w, h));
    r.push(GraphCommand::Reconfigure);
    r.push(GraphCommand::SetState(GraphState::Playing));
    r
}

/// Whatever state the graph was in, carrying out a reconfiguration plan for
/// any resolution leaves it playing, with the mixer's overlay input and both
/// capture filters at exactly that resolution.
pub proof fn lemma_refresh_leaves_playing(g: GraphView, res: VideoResolution, cs: Seq<GraphCommand>)
    requires
        is_refresh_plan(cs, res),
    ensures
        spec_apply_all(g, cs).state == GraphState::Playing,
        (spec_apply_all(g, cs).mixer_width, spec_apply_all(g, cs).mixer_height) == spec_dimensions(res),
        spec_apply_all(g, cs).camera_caps == spec_camera_caps(spec_dimensions(res).0, spec_dimensions(res).1),
        spec_apply_all(g, cs).overlay_caps == spec_overlay_caps(spec_dimensions(res).0, spec_dimensions(res).1),
{
    reveal_with_fuel(spec_apply_all, 7);
    assert(cs.drop_last().drop_last().drop_last().drop_last().drop_last().drop_last().len() == 0);
}

} // verus!
