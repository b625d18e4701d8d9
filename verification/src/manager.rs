//! The capture lifecycle state machine.
//!
//! The manager owns the shared session state: the status, the stored options,
//! and the per-stream progress of the session's pipelines. All decisions live
//! here — which streams a session needs, in what order they are brought up,
//! what must be torn down when a start fails or a session stops — while the
//! surrounding shell performs the media-framework work one requested action
//! at a time and reports each outcome back. The shell is expected to hold the
//! manager under one exclusive lock and drive it sequentially.

use vstd::prelude::*;

use crate::chunk::StreamKind;
use crate::error::CaptureError;
use crate::options::CaptureOptions;
use crate::options::DEFAULT_CHUNK_MS;

verus! {

/// Lifecycle state of the capture manager. `Idle` is both the initial state
/// and the terminal state of every session; transitions are linear.
#[derive(Debug, Clone, Copy, PartialEq, Eq, Structural)]
pub enum CaptureState {
    Idle,
    Starting,
    Running,
    Stopping,
}

/// Whether a state is part of a live session.
pub open spec fn spec_is_active(s: CaptureState) -> bool {
    s is Starting || s is Running || s is Stopping
}

impl CaptureState {
    /// A session is live exactly in the starting, running and stopping states.
    pub fn is_active(self) -> (r: bool)
        ensures
            r == spec_is_active(self),
    {
        match self {
            CaptureState::Idle => false,
            CaptureState::Starting => true,
            CaptureState::Running => true,
            CaptureState::Stopping => true,
        }
    }
}

/// How far one stream of the session in progress has been brought up.
#[derive(Debug, Clone, Copy, PartialEq, Eq, Structural)]
pub enum StreamPhase {
    /// The stream is not part of this session.
    Skipped,
    /// The stream's pipeline still has to be constructed.
    Pending,
    /// The pipeline is constructed but not yet producing.
    Built,
    /// The pipeline is actively producing samples.
    Active,
}

/// The next piece of outside work a start in progress asks of the shell.
#[derive(Debug, Clone, Copy, PartialEq, Eq, Structural)]
pub enum StartAction {
    /// Create the chunk dispatch channel and spawn the consumer task.
    SpawnConsumer,
    /// Construct the pipeline of the given stream.
    Build(StreamKind),
    /// Transition the given stream's constructed pipeline to producing.
    Activate(StreamKind),
    /// Every stream is producing: the start attempt is complete.
    Finish,
}

/// The top-level state machine: owns the session state and decides every
/// lifecycle transition. One instance exists per process; the shell wraps it
/// in its lock and performs the outside work the manager asks for.
#[derive(Debug)]
pub struct CaptureManager {
    pub status: CaptureState,
    pub options: CaptureOptions,
    pub consumer_spawned: bool,
    pub video_phase: StreamPhase,
    pub system_audio_phase: StreamPhase,
    pub mic_phase: StreamPhase,
}

impl CaptureManager {
    /// The phase the given stream is in.
    pub open spec fn spec_phase(self, kind: StreamKind) -> StreamPhase {
        match kind {
            StreamKind::Video => self.video_phase,
            StreamKind::SystemAudio => self.system_audio_phase,
            StreamKind::Mic => self.mic_phase,
        }
    }

    /// How many of the session's pipelines currently exist (constructed or
    /// producing).
    pub open spec fn spec_live_count(self) -> int {
        (if self.video_phase is Built || self.video_phase is Active {
            1int
        } else {
            0int
        }) + (if self.system_audio_phase is Built || self.system_audio_phase is Active {
            1int
        } else {
            0int
        }) + (if self.mic_phase is Built || self.mic_phase is Active {
            1int
        } else {
            0int
        })
    }

    /// Well-formedness of the manager: what each status implies about the
    /// session's streams. Idle and stopping states hold no pipelines at all;
    /// a running session has every requested stream producing; a start in
    /// progress never skips the two unconditional streams and takes the mic
    /// stream exactly when the stored options ask for it.
    pub open spec fn wf(self) -> bool {
        match self.status {
            CaptureState::Idle => !self.consumer_spawned && self.video_phase is Skipped
                && self.system_audio_phase is Skipped && self.mic_phase is Skipped,
            CaptureState::Starting => !(self.video_phase is Skipped) && !(self.system_audio_phase
                is Skipped) && (self.mic_phase is Skipped <==> !self.options.capture_mic),
            CaptureState::Running => self.consumer_spawned && self.video_phase is Active
                && self.system_audio_phase is Active && (if self.options.capture_mic {
                self.mic_phase is Active
            } else {
                self.mic_phase is Skipped
            }),
            CaptureState::Stopping => !self.consumer_spawned && self.video_phase is Skipped
                && self.system_audio_phase is Skipped && self.mic_phase is Skipped,
        }
    }

    /// A fresh manager: idle, with default options and no session.
    pub fn new() -> (r: Self)
        ensures
            r.status is Idle,
            r.options.chunk_duration_ms == DEFAULT_CHUNK_MS,
            r.options.capture_mic == false,
            r.options.debug_save == false,
            r.options.target is FullDisplay,
            r.wf(),
    {
        CaptureManager {
            status: CaptureState::Idle,
            options: CaptureOptions::default(),
            consumer_spawned: false,
            video_phase: StreamPhase::Skipped,
            system_audio_phase: StreamPhase::Skipped,
            mic_phase: StreamPhase::Skipped,
        }
    }

    /// Instantaneous snapshot of the lifecycle state.
    pub fn status(&self) -> (r: CaptureState)
        ensures
            r == self.status,
    {
        self.status
    }

    /// The options the next start will copy into its session.
    pub fn options(&self) -> (r: &CaptureOptions)
        ensures
            r == &self.options,
    {
        &self.options
    }

    /// Replaces the stored options for the next start. Refused while a
    /// session is live; the stored options are then left unchanged.
    pub fn set_options(&mut self, options: CaptureOptions) -> (r: Result<(), CaptureError>)
        ensures
            spec_is_active(old(self).status) ==> ({
                &&& r matches Err(e) && e is CaptureActive
                &&& *final(self) == *old(self)
            }),
            !spec_is_active(old(self).status) ==> ({
                &&& r is Ok
                &&& *final(self) == (CaptureManager { options, ..*old(self) })
            }),
    {
        if self.status.is_active() {
            Result::Err(CaptureError::CaptureActive)
        } else {
            self.options = options;
            Result::Ok(())
        }
    }

    /// Begins a capture session: checks and transitions the state before any
    /// pipeline work starts, so duplicate starts are refused atomically. On
    /// success the manager is `Starting`, the options are copied into the
    /// session, and every requested stream awaits construction; the shell
    /// then drives `next_start_action` until the attempt finishes or fails.
    /// A start while a session is live is refused and alters nothing.
    pub fn start_capture(&mut self, options: CaptureOptions) -> (r: Result<(), CaptureError>)
        requires
            old(self).wf(),
        ensures
            final(self).wf(),
            spec_is_active(old(self).status) ==> ({
                &&& r matches Err(e) && e is AlreadyActive
                &&& *final(self) == *old(self)
            }),
            !spec_is_active(old(self).status) ==> ({
                &&& r is Ok
                &&& final(self).status is Starting
                &&& final(self).options == options
                &&& final(self).consumer_spawned == false
                &&& final(self).video_phase is Pending
                &&& final(self).system_audio_phase is Pending
                &&& final(self).mic_phase == (if options.capture_mic {
                    StreamPhase::Pending
                } else {
                    StreamPhase::Skipped
                })
            }),
    {
        if self.status.is_active() {
            return Result::Err(CaptureError::AlreadyActive);
        }
        self.status = CaptureState::Starting;
        self.consumer_spawned = false;
        self.video_phase = StreamPhase::Pending;
        self.system_audio_phase = StreamPhase::Pending;
        self.mic_phase = if options.capture_mic {
            StreamPhase::Pending
        } else {
            StreamPhase::Skipped
        };
        self.options = options;
        Result::Ok(())
    }

    /// The next action a start in progress asks of the shell: first the
    /// consumer task, then construction of every requested stream in the
    /// fixed order video, system audio, mic, then activation in the same
    /// order, then `Finish`.
    pub open spec fn spec_next_start_action(self) -> StartAction {
        if !self.consumer_spawned {
            StartAction::SpawnConsumer
        } else if self.video_phase is Pending {
            StartAction::Build(StreamKind::Video)
        } else if self.system_audio_phase is Pending {
            StartAction::Build(StreamKind::SystemAudio)
        } else if self.mic_phase is Pending {
            StartAction::Build(StreamKind::Mic)
        } else if self.video_phase is Built {
            StartAction::Activate(StreamKind::Video)
        } else if self.system_audio_phase is Built {
            StartAction::Activate(StreamKind::SystemAudio)
        } else if self.mic_phase is Built {
            StartAction::Activate(StreamKind::Mic)
        } else {
            StartAction::Finish
        }
    }

    /// What the shell should do next for the start in progress.
    pub fn next_start_action(&self) -> (r: StartAction)
        requires
            self.status is Starting,
        ensures
            r == self.spec_next_start_action(),
    {
        if !self.consumer_spawned {
            StartAction::SpawnConsumer
        } else if matches!(self.video_phase, StreamPhase::Pending) {
            StartAction::Build(StreamKind::Video)
        } else if matches!(self.system_audio_phase, StreamPhase::Pending) {
            StartAction::Build(StreamKind::SystemAudio)
        } else if matches!(self.mic_phase, StreamPhase::Pending) {
            StartAction::Build(StreamKind::Mic)
        } else if matches!(self.video_phase, StreamPhase::Built) {
            StartAction::Activate(StreamKind::Video)
        } else if matches!(self.system_audio_phase, StreamPhase::Built) {
            StartAction::Activate(StreamKind::SystemAudio)
        } else if matches!(self.mic_phase, StreamPhase::Built) {
            StartAction::Activate(StreamKind::Mic)
        } else {
            StartAction::Finish
        }
    }

    /// Records that the shell performed the currently requested action
    /// successfully: the consumer is spawned, or the acted-on stream advances
    /// one phase. Everything else is left untouched.
    pub fn start_action_succeeded(&mut self)
        requires
            old(self).status is Starting,
            old(self).wf(),
            !(old(self).spec_next_start_action() is Finish),
        ensures
            final(self).wf(),
            final(self).status is Starting,
            final(self).options == old(self).options,
            old(self).spec_next_start_action() is SpawnConsumer ==> *final(self) == (
            CaptureManager { consumer_spawned: true, ..*old(self) }),
            old(self).spec_next_start_action() matches StartAction::Build(k) ==> ({
                &&& final(self).spec_phase(k) is Built
                &&& final(self).consumer_spawned == old(self).consumer_spawned
                &&& forall|j: StreamKind| j != k ==> final(self).spec_phase(j) == old(
                    self,
                ).spec_phase(j)
            }),
            old(self).spec_next_start_action() matches StartAction::Activate(k) ==> ({
                &&& final(self).spec_phase(k) is Active
                &&& final(self).consumer_spawned == old(self).consumer_spawned
                &&& forall|j: StreamKind| j != k ==> final(self).spec_phase(j) == old(
                    self,
                ).spec_phase(j)
            }),
    {
        if !self.consumer_spawned {
            self.consumer_spawned = true;
        } else if matches!(self.video_phase, StreamPhase::Pending) {
            self.video_phase = StreamPhase::Built;
        } else if matches!(self.system_audio_phase, StreamPhase::Pending) {
            self.system_audio_phase = StreamPhase::Built;
        } else if matches!(self.mic_phase, StreamPhase::Pending) {
            self.mic_phase = StreamPhase::Built;
        } else if matches!(self.video_phase, StreamPhase::Built) {
            self.video_phase = StreamPhase::Active;
        } else if matches!(self.system_audio_phase, StreamPhase::Built) {
            self.system_audio_phase = StreamPhase::Active;
        } else if matches!(self.mic_phase, StreamPhase::Built) {
            self.mic_phase = StreamPhase::Active;
        }
    }

    /// The streams whose pipelines currently exist, in the fixed session
    /// order: exactly what has to be torn down to dismantle the session.
    pub open spec fn spec_teardown_list(self) -> Seq<StreamKind> {
        let video: Seq<StreamKind> = if self.video_phase is Built || self.video_phase is Active {
            seq![StreamKind::Video]
        } else {
            Seq::empty()
        };
        let sys: Seq<StreamKind> = if self.system_audio_phase is Built || self.system_audio_phase
            is Active {
            seq![StreamKind::SystemAudio]
        } else {
            Seq::empty()
        };
        let mic: Seq<StreamKind> = if self.mic_phase is Built || self.mic_phase is Active {
            seq![StreamKind::Mic]
        } else {
            Seq::empty()
        };
        video + sys + mic
    }

    /// Records that the currently requested action failed: the whole start
    /// attempt is rolled back. The manager reverts to `Idle` holding zero
    /// pipelines, and the returned list names every pipeline the attempt had
    /// constructed, which the shell must now tear down (best-effort; teardown
    /// failures are absorbed). The stored options survive the rollback.
    pub fn start_action_failed(&mut self) -> (r: Vec<StreamKind>)
        requires
            old(self).status is Starting,
            old(self).wf(),
        ensures
            final(self).wf(),
            final(self).status is Idle,
            final(self).spec_live_count() == 0,
            final(self).options == old(self).options,
            final(self).consumer_spawned == false,
            r@ == old(self).spec_teardown_list(),
    {
        let mut torn: Vec<StreamKind> = Vec::new();
        if matches!(self.video_phase, StreamPhase::Built | StreamPhase::Active) {
            torn.push(StreamKind::Video);
        }
        if matches!(self.system_audio_phase, StreamPhase::Built | StreamPhase::Active) {
            torn.push(StreamKind::SystemAudio);
        }
        if matches!(self.mic_phase, StreamPhase::Built | StreamPhase::Active) {
            torn.push(StreamKind::Mic);
        }
        self.status = CaptureState::Idle;
        self.consumer_spawned = false;
        self.video_phase = StreamPhase::Skipped;
        self.system_audio_phase = StreamPhase::Skipped;
        self.mic_phase = StreamPhase::Skipped;
        proof {
            assert(torn@ =~= old(self).spec_teardown_list());
        }
        torn
    }

    /// Completes a start whose every action succeeded: the session is live
    /// and the manager reports `Running`.
    pub fn finish_start(&mut self)
        requires
            old(self).status is Starting,
            old(self).wf(),
            old(self).spec_next_start_action() is Finish,
        ensures
            final(self).wf(),
            *final(self) == (CaptureManager { status: CaptureState::Running, ..*old(self) }),
    {
        self.status = CaptureState::Running;
        proof {
            assert(self.video_phase is Active);
            assert(self.system_audio_phase is Active);
        }
    }

    /// Stops the session: a no-op when already idle (stop is idempotent),
    /// otherwise the manager forgets every pipeline and enters `Stopping`,
    /// and the returned list names each pipeline the shell must tear down
    /// unconditionally — teardown failures are absorbed, never surfaced. The
    /// shell reports back through `finish_stop` once teardown is done;
    /// dropping its channel sender then lets the consumer drain and exit.
    pub fn stop_capture(&mut self) -> (r: Vec<StreamKind>)
        requires
            old(self).wf(),
        ensures
            final(self).wf(),
            !spec_is_active(old(self).status) ==> *final(self) == *old(self) && r@ == Seq::<
                StreamKind,
            >::empty(),
            spec_is_active(old(self).status) ==> ({
                &&& final(self).status is Stopping
                &&& final(self).spec_live_count() == 0
                &&& final(self).consumer_spawned == false
                &&& final(self).options == old(self).options
                &&& r@ == old(self).spec_teardown_list()
            }),
    {
        if !self.status.is_active() {
            return Vec::new();
        }
        self.status = CaptureState::Stopping;
        let mut torn: Vec<StreamKind> = Vec::new();
        if matches!(self.video_phase, StreamPhase::Built | StreamPhase::Active) {
            torn.push(StreamKind::Video);
        }
        if matches!(self.system_audio_phase, StreamPhase::Built | StreamPhase::Active) {
            torn.push(StreamKind::SystemAudio);
        }
        if matches!(self.mic_phase, StreamPhase::Built | StreamPhase::Active) {
            torn.push(StreamKind::Mic);
        }
        self.consumer_spawned = false;
        self.video_phase = StreamPhase::Skipped;
        self.system_audio_phase = StreamPhase::Skipped;
        self.mic_phase = StreamPhase::Skipped;
        proof {
            assert(torn@ =~= old(self).spec_teardown_list());
        }
        torn
    }

    /// Completes a stop once the shell has finished tearing down: the
    /// manager returns to `Idle`, ready for the next session.
    pub fn finish_stop(&mut self)
        requires
            old(self).status is Stopping,
            old(self).wf(),
        ensures
            final(self).wf(),
            *final(self) == (CaptureManager { status: CaptureState::Idle, ..*old(self) }),
    {
        self.status = CaptureState::Idle;
    }
}

impl Default for CaptureManager {
    /// Same as `new`: an idle manager with default options.
    fn default() -> (r: Self)
        ensures
            r.status is Idle,
            r.wf(),
    {
        CaptureManager::new()
    }
}

/// A manager that reports a live session holds a session, and an idle one
/// holds nothing: zero live pipelines and no consumer task.
pub proof fn lemma_idle_holds_nothing(m: CaptureManager)
    requires
        m.wf(),
        !spec_is_active(m.status),
    ensures
        m.spec_live_count() == 0,
        !m.consumer_spawned,
        m.spec_teardown_list() == Seq::<StreamKind>::empty(),
{
    assert(m.spec_teardown_list() =~= Seq::<StreamKind>::empty());
}

} // verus!
