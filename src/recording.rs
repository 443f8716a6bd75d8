use vstd::prelude::*;

verus! {

/// Which tee a tap handle was requested from.
#[derive(Debug, Clone, Copy, PartialEq, Eq, Structural)]
pub enum TapKind {
    Video,
    Audio,
}

/// Where a tap handle stands in its teardown.
#[derive(Debug, Clone, Copy, PartialEq, Eq, Structural)]
pub enum TapStage {
    Attached,
    TeardownRequested,
    Idle,
    Unlinked,
    Released,
}

/// What happened to a tap being torn down.
#[derive(Debug, Clone, Copy, PartialEq, Eq, Structural)]
pub enum TapEvent {
    /// Recording was asked to stop.
    StopRequested,
    /// The idle condition fired: no data unit is in transit on the tap.
    IdleReached,
    /// The tap was unlinked from the sub-graph's entry point.
    UnlinkDone,
    /// The tap was handed back to its tee.
    ReleaseDone,
}

/// What must be done next to a tap being torn down.
#[derive(Debug, Clone, Copy, PartialEq, Eq, Structural)]
pub enum TapAction {
    /// Install the one-shot idle condition on the tap.
    WaitForIdle,
    /// Unlink the tap from the sub-graph's entry point.
    Unlink,
    /// Release the tap back to its tee.
    Release,
    /// Remove the one-shot condition and queue the sub-graph's removal on
    /// the control thread.
    ScheduleRemoval,
}

/// One step of a tap's teardown: the next stage, and what to do.
pub open spec fn spec_tap_step(s: TapStage, e: TapEvent) -> (TapStage, Option<TapAction>) {
    match (s, e) {
        (TapStage::Attached, TapEvent::StopRequested) => (TapStage::TeardownRequested, Some(TapAction::WaitForIdle)),
        (TapStage::TeardownRequested, TapEvent::IdleReached) => (TapStage::Idle, Some(TapAction::Unlink)),
        (TapStage::Idle, TapEvent::UnlinkDone) => (TapStage::Unlinked, Some(TapAction::Release)),
        (TapStage::Unlinked, TapEvent::ReleaseDone) => (TapStage::Released, Some(TapAction::ScheduleRemoval)),
        _ => (s, None),
    }
}

/// Stage reached and actions asked for by a run of events, in order.
pub open spec fn spec_tap_run(s: TapStage, es: Seq<TapEvent>) -> (TapStage, Seq<TapAction>)
    decreases es.len(),
{
    if es.len() == 0 {
        (s, Seq::empty())
    } else {
        let (s1, acts) = spec_tap_run(s, es.drop_last());
        let (s2, a) = spec_tap_step(s1, es.last());
        match a {
            Some(x) => (s2, acts.push(x)),
            None => (s2, acts),
        }
    }
}

/// How many times `a` occurs in `acts`.
pub open spec fn count_action(acts: Seq<TapAction>, a: TapAction) -> nat
    decreases acts.len(),
{
    if acts.len() == 0 {
        0
    } else {
        count_action(acts.drop_last(), a) + if acts.last() == a { 1nat } else { 0nat }
    }
}

/// Order of a stage along the teardown.
pub open spec fn stage_rank(s: TapStage) -> nat {
    match s {
        TapStage::Attached => 0,
        TapStage::TeardownRequested => 1,
        TapStage::Idle => 2,
        TapStage::Unlinked => 3,
        TapStage::Released => 4,
    }
}

/// Teardown state machine of one tap handle. It is owned by whatever holds
/// the handle, so the handle's release is asked for from one place only.
#[derive(Debug)]
pub struct TapTeardown {
    pub kind: TapKind,
    pub stage: TapStage,
}

impl TapTeardown {
    /// A freshly linked tap.
    pub fn new(kind: TapKind) -> (r: TapTeardown)
        ensures
            r.kind == kind,
            r.stage == TapStage::Attached,
    {
        TapTeardown { kind, stage: TapStage::Attached }
    }

    /// Takes one event; an event that does not fit the stage changes nothing
    /// and asks for nothing.
    pub fn step(&mut self, e: TapEvent) -> (r: Option<TapAction>)
        ensures
            final(self).kind == old(self).kind,
            (final(self).stage, r) == spec_tap_step(old(self).stage, e),
    {
        let (s, a) = match (self.stage, e) {
            (TapStage::Attached, TapEvent::StopRequested) => (TapStage::TeardownRequested, Some(TapAction::WaitForIdle)),
            (TapStage::TeardownRequested, TapEvent::IdleReached) => (TapStage::Idle, Some(TapAction::Unlink)),
            (TapStage::Idle, TapEvent::UnlinkDone) => (TapStage::Unlinked, Some(TapAction::Release)),
            (TapStage::Unlinked, TapEvent::ReleaseDone) => (TapStage::Released, Some(TapAction::ScheduleRemoval)),
            _ => (self.stage, None),
        };
        self.stage = s;
        a
    }

    /// Whether the handle has gone back to its tee.
    pub fn is_released(&self) -> (r: bool)
        ensures
            r == (self.stage == TapStage::Released),
    {
        self.stage == TapStage::Released
    }
}

/// Along any run of events, a tap only moves forward, and its release is
/// asked for at most once, and exactly once if the tap went past `Unlinked`
/// from a stage before it.
pub proof fn lemma_tap_released_at_most_once(s: TapStage, es: Seq<TapEvent>)
    ensures
        stage_rank(spec_tap_run(s, es).0) >= stage_rank(s),
        stage_rank(s) <= 2 ==> count_action(spec_tap_run(s, es).1, TapAction::Release) == (
            if stage_rank(spec_tap_run(s, es).0) >= 3 { 1nat } else { 0nat }),
        stage_rank(s) >= 3 ==> count_action(spec_tap_run(s, es).1, TapAction::Release) == 0,
    decreases es.len(),
{
    if es.len() > 0 {
        lemma_tap_released_at_most_once(s, es.drop_last());
        let (s1, acts) = spec_tap_run(s, es.drop_last());
        let (s2, a) = spec_tap_step(s1, es.last());
        if let Some(x) = a {
            assert(acts.push(x).drop_last() =~= acts);
        }
    }
}

/// Why recording could not start.
#[derive(Debug, Clone, Copy, PartialEq, Eq, Structural)]
pub enum RecordError {
    /// No publish destination is configured.
    Configuration,
    /// A recording branch is already present.
    Busy,
    /// The recording sub-graph could not be built from its description.
    Build,
    /// A tap could not be linked to the sub-graph.
    Link(TapKind),
    /// The linked sub-graph refused to run.
    Start,
}

/// Steps of attaching the recording branch, in the order they happen.
#[derive(Debug, Clone, Copy, PartialEq, Eq, Structural)]
pub enum AttachPhase {
    /// The sub-graph is being built from its description.
    Building,
    /// The sub-graph was added; the video tap was requested and is being linked.
    LinkingVideo,
    /// The video tap is linked; the audio tap was requested and is being linked.
    LinkingAudio,
    /// Both taps are linked; the sub-graph is asked to run.
    Starting,
}

/// The recording-branch slot of the pipeline.
#[derive(Debug, Clone, Copy, PartialEq, Eq, Structural)]
pub enum Slot {
    Absent,
    Attaching(AttachPhase),
    Attached,
    /// Both taps wait for their idle condition; the flags say which taps are
    /// back with their tees and whether the sub-graph was taken out.
    Detaching { video_released: bool, audio_released: bool, bin_removed: bool },
}

/// Outcome of one step of attaching the recording branch.
#[derive(Debug, Clone, Copy, PartialEq, Eq, Structural)]
pub enum AttachEvent {
    BinBuilt,
    BinBuildFailed,
    VideoLinked,
    VideoLinkFailed,
    AudioLinked,
    AudioLinkFailed,
    Running,
    RunFailed,
}

/// What to undo after a failed attach.
#[derive(Debug, Clone, Copy, PartialEq, Eq, Structural)]
pub struct Rollback {
    /// Remove the sub-graph from the main graph and stop it.
    pub remove_bin: bool,
    /// Unlink the video tap and release it to its tee.
    pub release_video: bool,
    /// Unlink the audio tap and release it to its tee.
    pub release_audio: bool,
}

/// What to do next while attaching the recording branch.
#[derive(Debug, Clone, Copy, PartialEq, Eq, Structural)]
pub enum AttachAction {
    /// Add the sub-graph to the main graph, request a tap from the video tee
    /// and link it to the sub-graph's video entry point.
    AddAndLinkVideo,
    /// Request a tap from the audio tee and link it to the audio entry point.
    LinkAudio,
    /// Set the sub-graph running.
    Run,
    /// The branch is attached.
    Done,
    /// Undo what the rollback says, then report the error.
    Abort(RecordError, Rollback),
    /// The event does not fit the current step; nothing to do.
    Ignore,
}

/// What the control thread does when a tap was released.
#[derive(Debug, Clone, Copy, PartialEq, Eq, Structural)]
pub enum RemovalAction {
    /// Remove the sub-graph from the main graph and stop it.
    RemoveAndStop,
    /// Nothing left to do.
    Nothing,
}

/// The recording-branch slot, with a ledger of the tap handles requested
/// from the tees and released back to them.
#[derive(Clone, Copy)]
pub struct Recorder {
    pub slot: Slot,
    pub requested: Ghost<nat>,
    pub released: Ghost<nat>,
}

/// Number of `false` among two flags.
pub open spec fn outstanding(a: bool, b: bool) -> nat {
    (if a { 0nat } else { 1nat }) + (if b { 0nat } else { 1nat })
}

/// Tap handles held at a given slot: every requested handle is either held
/// there or was released once.
pub open spec fn held_taps(s: Slot) -> nat {
    match s {
        Slot::Absent => 0,
        Slot::Attaching(AttachPhase::Building) => 0,
        Slot::Attaching(AttachPhase::LinkingVideo) => 1,
        Slot::Attaching(_) => 2,
        Slot::Attached => 2,
        Slot::Detaching { video_released, audio_released, .. } => outstanding(video_released, audio_released),
    }
}

impl Recorder {
    pub open spec fn wf(self) -> bool {
        &&& self.requested@ == self.released@ + held_taps(self.slot)
        &&& (self.slot matches Slot::Detaching { video_released, audio_released, bin_removed } ==> !(video_released && audio_released) && ((video_released || audio_released) ==> bin_removed))
    }
}

/// Starting to record: refused without a destination, or while a branch is
/// present; otherwise the sub-graph is to be built.
pub open spec fn spec_begin(r: Recorder, has_destination: bool) -> (Recorder, Result<(), RecordError>) {
    if !has_destination {
        (r, Err(RecordError::Configuration))
    } else if !(r.slot is Absent) {
        (r, Err(RecordError::Busy))
    } else {
        (Recorder { slot: Slot::Attaching(AttachPhase::Building), ..r }, Ok(()))
    }
}

/// The slot emptied after a failed attach, with `n` handles given back.
pub open spec fn spec_aborted(r: Recorder, n: nat) -> Recorder {
    Recorder { slot: Slot::Absent, released: Ghost((r.released@ + n) as nat), ..r }
}

/// One step of attaching the recording branch.
pub open spec fn spec_attach(r: Recorder, e: AttachEvent) -> (Recorder, AttachAction) {
    match (r.slot, e) {
        (Slot::Attaching(AttachPhase::Building), AttachEvent::BinBuilt) => (
            Recorder { slot: Slot::Attaching(AttachPhase::LinkingVideo), requested: Ghost(r.requested@ + 1), ..r },
            AttachAction::AddAndLinkVideo,
        ),
        (Slot::Attaching(AttachPhase::Building), AttachEvent::BinBuildFailed) => (
            Recorder { slot: Slot::Absent, ..r },
            AttachAction::Abort(RecordError::Build, Rollback { remove_bin: false, release_video: false, release_audio: false }),
        ),
        (Slot::Attaching(AttachPhase::LinkingVideo), AttachEvent::VideoLinked) => (
            Recorder { slot: Slot::Attaching(AttachPhase::LinkingAudio), requested: Ghost(r.requested@ + 1), ..r },
            AttachAction::LinkAudio,
        ),
        (Slot::Attaching(AttachPhase::LinkingVideo), AttachEvent::VideoLinkFailed) => (
            spec_aborted(r, 1),
            AttachAction::Abort(RecordError::Link(TapKind::Video), Rollback { remove_bin: true, release_video: true, release_audio: false }),
        ),
        (Slot::Attaching(AttachPhase::LinkingAudio), AttachEvent::AudioLinked) => (
            Recorder { slot: Slot::Attaching(AttachPhase::Starting), ..r },
            AttachAction::Run,
        ),
        (Slot::Attaching(AttachPhase::LinkingAudio), AttachEvent::AudioLinkFailed) => (
            spec_aborted(r, 2),
            AttachAction::Abort(RecordError::Link(TapKind::Audio), Rollback { remove_bin: true, release_video: true, release_audio: true }),
        ),
        (Slot::Attaching(AttachPhase::Starting), AttachEvent::Running) => (
            Recorder { slot: Slot::Attached, ..r },
            AttachAction::Done,
        ),
        (Slot::Attaching(AttachPhase::Starting), AttachEvent::RunFailed) => (
            spec_aborted(r, 2),
            AttachAction::Abort(RecordError::Start, Rollback { remove_bin: true, release_video: true, release_audio: true }),
        ),
        _ => (r, AttachAction::Ignore),
    }
}

/// Stopping: an attached branch starts its teardown, both taps at once;
/// otherwise nothing happens.
pub open spec fn spec_stop(r: Recorder) -> (Recorder, bool) {
    if r.slot is Attached {
        (Recorder { slot: Slot::Detaching { video_released: false, audio_released: false, bin_removed: false }, ..r }, true)
    } else {
        (r, false)
    }
}

/// A tap of a detaching branch was released: the first release takes the
/// sub-graph out, the second empties the slot. A release reported twice, or
/// outside a teardown, changes nothing.
pub open spec fn spec_tap_released(r: Recorder, k: TapKind) -> (Recorder, RemovalAction) {
    match r.slot {
        Slot::Detaching { video_released, audio_released, bin_removed } => {
            let already = if k == TapKind::Video { video_released } else { audio_released };
            if already {
                (r, RemovalAction::Nothing)
            } else {
                let v = video_released || k == TapKind::Video;
                let a = audio_released || k == TapKind::Audio;
                let slot = if v && a { Slot::Absent } else { Slot::Detaching { video_released: v, audio_released: a, bin_removed: true } };
                (
                    Recorder { slot, released: Ghost(r.released@ + 1), ..r },
                    if bin_removed { RemovalAction::Nothing } else { RemovalAction::RemoveAndStop },
                )
            }
        },
        _ => (r, RemovalAction::Nothing),
    }
}

impl Recorder {
    /// An empty slot, no handle ever requested.
    pub fn new() -> (r: Recorder)
        ensures
            r.wf(),
            r.slot is Absent,
            r.requested@ == 0,
            r.released@ == 0,
    {
        Recorder { slot: Slot::Absent, requested: Ghost(0), released: Ghost(0) }
    }

    /// Whether no branch is present or on its way.
    pub fn is_absent(&self) -> (r: bool)
        ensures
            r == (self.slot is Absent),
    {
        match self.slot {
            Slot::Absent => true,
            _ => false,
        }
    }

    /// Begins to attach a branch, given whether a destination is configured.
    pub fn begin(&mut self, has_destination: bool) -> (r: Result<(), RecordError>)
        requires
            old(self).wf(),
        ensures
            final(self).wf(),
            (*final(self), r) == spec_begin(*old(self), has_destination),
    {
        if !has_destination {
            Err(RecordError::Configuration)
        } else if !self.is_absent() {
            Err(RecordError::Busy)
        } else {
            self.slot = Slot::Attaching(AttachPhase::Building);
            Ok(())
        }
    }

    /// Takes the outcome of one attach step and says what to do next.
    pub fn attach(&mut self, e: AttachEvent) -> (r: AttachAction)
        requires
            old(self).wf(),
        ensures
            final(self).wf(),
            (*final(self), r) == spec_attach(*old(self), e),
    {
        let none = Rollback { remove_bin: false, release_video: false, release_audio: false };
        let video = Rollback { remove_bin: true, release_video: true, release_audio: false };
        let both = Rollback { remove_bin: true, release_video: true, release_audio: true };
        match (self.slot, e) {
            (Slot::Attaching(AttachPhase::Building), AttachEvent::BinBuilt) => {
                self.slot = Slot::Attaching(AttachPhase::LinkingVideo);
                self.requested = Ghost(self.requested@ + 1);
                AttachAction::AddAndLinkVideo
            },
            (Slot::Attaching(AttachPhase::Building), AttachEvent::BinBuildFailed) => {
                self.slot = Slot::Absent;
                AttachAction::Abort(RecordError::Build, none)
            },
            (Slot::Attaching(AttachPhase::LinkingVideo), AttachEvent::VideoLinked) => {
                self.slot = Slot::Attaching(AttachPhase::LinkingAudio);
                self.requested = Ghost(self.requested@ + 1);
                AttachAction::LinkAudio
            },
            (Slot::Attaching(AttachPhase::LinkingVideo), AttachEvent::VideoLinkFailed) => {
                self.slot = Slot::Absent;
                self.released = Ghost(self.released@ + 1);
                AttachAction::Abort(RecordError::Link(TapKind::Video), video)
            },
            (Slot::Attaching(AttachPhase::LinkingAudio), AttachEvent::AudioLinked) => {
                self.slot = Slot::Attaching(AttachPhase::Starting);
                AttachAction::Run
            },
            (Slot::Attaching(AttachPhase::LinkingAudio), AttachEvent::AudioLinkFailed) => {
                self.slot = Slot::Absent;
                self.released = Ghost(self.released@ + 2);
                AttachAction::Abort(RecordError::Link(TapKind::Audio), both)
            },
            (Slot::Attaching(AttachPhase::Starting), AttachEvent::Running) => {
                self.slot = Slot::Attached;
                AttachAction::Done
            },
            (Slot::Attaching(AttachPhase::Starting), AttachEvent::RunFailed) => {
                self.slot = Slot::Absent;
                self.released = Ghost(self.released@ + 2);
                AttachAction::Abort(RecordError::Start, both)
            },
            _ => AttachAction::Ignore,
        }
    }

    /// Starts the teardown of an attached branch; `true` when both taps are
    /// now to wait for their idle condition.
    pub fn stop(&mut self) -> (r: bool)
        requires
            old(self).wf(),
        ensures
            final(self).wf(),
            (*final(self), r) == spec_stop(*old(self)),
    {
        match self.slot {
            Slot::Attached => {
                self.slot = Slot::Detaching { video_released: false, audio_released: false, bin_removed: false };
                true
            },
            _ => false,
        }
    }

    /// Takes the report, run on the control thread, that a tap of a
    /// detaching branch went back to its tee.
    pub fn tap_released(&mut self, k: TapKind) -> (r: RemovalAction)
        requires
            old(self).wf(),
        ensures
            final(self).wf(),
            (*final(self), r) == spec_tap_released(*old(self), k),
    {
        match self.slot {
            Slot::Detaching { video_released, audio_released, bin_removed } => {
                let already = match k {
                    TapKind::Video => video_released,
                    TapKind::Audio => audio_released,
                };
                if already {
                    RemovalAction::Nothing
                } else {
                    let v = video_released || k == TapKind::Video;
                    let a = audio_released || k == TapKind::Audio;
                    self.slot = if v && a {
                        Slot::Absent
                    } else {
                        Slot::Detaching { video_released: v, audio_released: a, bin_removed: true }
                    };
                    self.released = Ghost(self.released@ + 1);
                    if bin_removed {
                        RemovalAction::Nothing
                    } else {
                        RemovalAction::RemoveAndStop
                    }
                }
            },
            _ => RemovalAction::Nothing,
        }
    }
}

/// The other tap.
pub open spec fn other_tap(k: TapKind) -> TapKind {
    if k == TapKind::Video { TapKind::Audio } else { TapKind::Video }
}

/// A successful start followed by a stop whose two taps are released in
/// the order `first`, then the other one.
pub open spec fn spec_cycle(r: Recorder, first: TapKind) -> Recorder {
    let r1 = spec_begin(r, true).0;
    let r2 = spec_attach(r1, AttachEvent::BinBuilt).0;
    let r3 = spec_attach(r2, AttachEvent::VideoLinked).0;
    let r4 = spec_attach(r3, AttachEvent::AudioLinked).0;
    let r5 = spec_attach(r4, AttachEvent::Running).0;
    let r6 = spec_stop(r5).0;
    let r7 = spec_tap_released(r6, first).0;
    spec_tap_released(r7, other_tap(first)).0
}

/// Cycles run one after the other, each releasing its taps in the order given.
pub open spec fn spec_cycles(r: Recorder, orders: Seq<TapKind>) -> Recorder
    decreases orders.len(),
{
    if orders.len() == 0 {
        r
    } else {
        spec_cycle(spec_cycles(r, orders.drop_last()), orders.last())
    }
}

/// Starting and then stopping a recording brings the slot back to absent
/// once both taps have reported their release, in either order: each step
/// of the start succeeds, the stop tears the branch down, the sub-graph is
/// taken out exactly once, and the two tap handles that were requested are
/// the two that were released.
pub proof fn lemma_start_stop_returns_absent(r: Recorder, first: TapKind)
    requires
        r.wf(),
        r.slot is Absent,
    ensures
        spec_begin(r, true).1 is Ok,
        spec_attach(spec_begin(r, true).0, AttachEvent::BinBuilt).1 == AttachAction::AddAndLinkVideo,
        ({
            let r1 = spec_begin(r, true).0;
            let r2 = spec_attach(r1, AttachEvent::BinBuilt).0;
            let r3 = spec_attach(r2, AttachEvent::VideoLinked).0;
            let r4 = spec_attach(r3, AttachEvent::AudioLinked).0;
            let r5 = spec_attach(r4, AttachEvent::Running).0;
            let r6 = spec_stop(r5).0;
            let r7 = spec_tap_released(r6, first).0;
            &&& spec_attach(r2, AttachEvent::VideoLinked).1 == AttachAction::LinkAudio
            &&& spec_attach(r3, AttachEvent::AudioLinked).1 == AttachAction::Run
            &&& spec_attach(r4, AttachEvent::Running).1 == AttachAction::Done
            &&& r5.slot is Attached
            &&& spec_stop(r5).1
            &&& spec_tap_released(r6, first).1 == RemovalAction::RemoveAndStop
            &&& spec_tap_released(r7, other_tap(first)).1 == RemovalAction::Nothing
        }),
        spec_cycle(r, first).wf(),
        spec_cycle(r, first).slot is Absent,
        spec_cycle(r, first).requested@ == r.requested@ + 2,
        spec_cycle(r, first).released@ == r.released@ + 2,
{
}

/// Reporting a tap's release a second time changes nothing: a handle is
/// never counted as given back twice.
pub proof fn lemma_release_report_idempotent(r: Recorder, k: TapKind)
    requires
        r.wf(),
    ensures
        spec_tap_released(spec_tap_released(r, k).0, k) == (spec_tap_released(r, k).0, RemovalAction::Nothing),
{
}

/// Over any number of start/stop cycles, each releasing its taps in any
/// order, every tap handle requested is released exactly once: the ledger
/// stays balanced and the slot ends absent.
pub proof fn lemma_cycles_release_each_tap_once(r: Recorder, orders: Seq<TapKind>)
    requires
        r.wf(),
        r.slot is Absent,
    ensures
        spec_cycles(r, orders).wf(),
        spec_cycles(r, orders).slot is Absent,
        spec_cycles(r, orders).requested@ == r.requested@ + 2 * orders.len(),
        spec_cycles(r, orders).released@ == r.released@ + 2 * orders.len(),
        spec_cycles(r, orders).released@ == spec_cycles(r, orders).requested@,
    decreases orders.len(),
{
    if orders.len() > 0 {
        lemma_cycles_release_each_tap_once(r, orders.drop_last());
        lemma_start_stop_returns_absent(spec_cycles(r, orders.drop_last()), orders.last());
    }
}

} // verus!
