//! The playback state machine. The control thread feeds it commands and the
//! outcomes of the work it asked for; it answers with the effects to perform,
//! in order, and keeps the playback state.

use vstd::prelude::*;

verus! {

/// Milliseconds between two position reports.
pub const POSITION_INTERVAL_MS: u64 = 100;

#[derive(Clone, Copy, Debug, PartialEq, Eq, Structural)]
pub enum PlaybackState {
    Idle,
    /// Metadata probed; decoder and output not yet created.
    Loaded,
    Playing,
    Paused,
}

/// Outside work that the controller has asked for and waits on.
#[derive(Clone, Copy, Debug, PartialEq, Eq, Structural)]
pub enum Awaiting {
    Nothing,
    /// The metadata probe of a requested track.
    Probe,
    /// A seek of the decoder.
    Seek,
}

/// What reaches the controller: a command, or the outcome of requested work.
#[derive(Clone, Copy, Debug, PartialEq, Eq, Structural)]
pub enum ControlInput {
    /// A track was requested for playback.
    Play,
    /// The metadata probe ended; `true` on success.
    TrackProbed(bool),
    /// Decoder and output creation ended; `true` on success.
    PipelineOpened(bool),
    Pause,
    Resume,
    Stop,
    /// A seek was requested.
    Seek,
    /// The decoder seek ended; `true` on success.
    SeekFinished(bool),
    Next,
    Previous,
    /// The decoder reached the end of the stream.
    EndOfStream,
    Shutdown,
}

/// An event for the caller.
#[derive(Clone, Copy, Debug, PartialEq, Eq, Structural)]
pub enum Notice {
    TrackLoaded,
    Playing,
    Paused,
    Stopped,
    Finished,
    RequestNext,
    RequestPrevious,
    /// The requested track could not be opened or probed.
    LoadFailed,
    /// Decoder or output could not be created.
    PlayFailed,
    /// The decoder could not seek.
    SeekFailed,
}

/// Work for the control thread, performed in the order given.
#[derive(Clone, Copy, Debug, PartialEq, Eq, Structural)]
pub enum Effect {
    /// Drop the decoder and the output stream.
    ReleasePlayback,
    /// Probe the requested track's metadata.
    ProbeTrack,
    /// Create the decoder and the output stream.
    OpenPipeline,
    PauseOutput,
    ResumeOutput,
    /// Seek the decoder to the requested time.
    SeekDecoder,
    /// Discard the samples queued for the device.
    ClearOutput,
    Emit(Notice),
    /// Leave the control loop.
    Exit,
}

pub open spec fn is_failure(n: Notice) -> bool {
    n is LoadFailed || n is PlayFailed || n is SeekFailed
}

/// True of an effect that sends a failure event.
pub open spec fn reports_failure(e: Effect) -> bool {
    match e {
        Effect::Emit(n) => is_failure(n),
        _ => false,
    }
}

/// The playback state machine of the control thread.
#[derive(Clone, Copy, Debug, PartialEq, Eq, Structural)]
pub struct PlaybackController {
    pub state: PlaybackState,
    pub awaiting: Awaiting,
    /// False once the controller has shut down.
    pub running: bool,
}

pub open spec fn with(
    c: PlaybackController,
    state: PlaybackState,
    awaiting: Awaiting,
) -> PlaybackController {
    PlaybackController { state, awaiting, running: c.running }
}

/// The event that restates a kept state after a seek: paused stays paused.
pub open spec fn state_notice(state: PlaybackState) -> Notice {
    if state is Paused {
        Notice::Paused
    } else {
        Notice::Playing
    }
}

/// One transition: the next controller and the effects, in order.
pub open spec fn transition(c: PlaybackController, input: ControlInput) -> (PlaybackController, Seq<Effect>) {
    let idle = with(c, PlaybackState::Idle, Awaiting::Nothing);
    let settled = c.awaiting is Nothing;
    if !c.running {
        (c, seq![])
    } else {
        match input {
            ControlInput::Play => (
                with(c, PlaybackState::Idle, Awaiting::Probe),
                seq![Effect::ReleasePlayback, Effect::ProbeTrack],
            ),
            ControlInput::TrackProbed(ok) => if !(c.awaiting is Probe) {
                (c, seq![])
            } else if ok {
                (
                    with(c, PlaybackState::Loaded, Awaiting::Nothing),
                    seq![Effect::Emit(Notice::TrackLoaded), Effect::OpenPipeline],
                )
            } else {
                (idle, seq![Effect::Emit(Notice::LoadFailed)])
            },
            ControlInput::PipelineOpened(ok) => if !(settled && c.state is Loaded) {
                (c, seq![])
            } else if ok {
                (with(c, PlaybackState::Playing, Awaiting::Nothing), seq![Effect::Emit(Notice::Playing)])
            } else {
                (idle, seq![Effect::ReleasePlayback, Effect::Emit(Notice::PlayFailed)])
            },
            ControlInput::Pause => if settled && c.state is Playing {
                (
                    with(c, PlaybackState::Paused, Awaiting::Nothing),
                    seq![Effect::PauseOutput, Effect::Emit(Notice::Paused)],
                )
            } else {
                (c, seq![])
            },
            ControlInput::Resume => if settled && c.state is Paused {
                (
                    with(c, PlaybackState::Playing, Awaiting::Nothing),
                    seq![Effect::ResumeOutput, Effect::Emit(Notice::Playing)],
                )
            } else {
                (c, seq![])
            },
            ControlInput::Stop => (idle, seq![Effect::ReleasePlayback, Effect::Emit(Notice::Stopped)]),
            ControlInput::Seek => if settled && (c.state is Playing || c.state is Paused) {
                (with(c, c.state, Awaiting::Seek), seq![Effect::SeekDecoder])
            } else {
                (c, seq![])
            },
            ControlInput::SeekFinished(ok) => if !(c.awaiting is Seek) {
                (c, seq![])
            } else if ok {
                (
                    with(c, c.state, Awaiting::Nothing),
                    seq![Effect::ClearOutput, Effect::Emit(state_notice(c.state))],
                )
            } else {
                (idle, seq![Effect::ReleasePlayback, Effect::Emit(Notice::SeekFailed)])
            },
            ControlInput::Next => (idle, seq![Effect::ReleasePlayback, Effect::Emit(Notice::RequestNext)]),
            ControlInput::Previous => (
                idle,
                seq![Effect::ReleasePlayback, Effect::Emit(Notice::RequestPrevious)],
            ),
            ControlInput::EndOfStream => if settled && c.state is Playing {
                (idle, seq![Effect::ReleasePlayback, Effect::Emit(Notice::Finished)])
            } else {
                (c, seq![])
            },
            ControlInput::Shutdown => (
                PlaybackController {
                    state: PlaybackState::Idle,
                    awaiting: Awaiting::Nothing,
                    running: false,
                },
                seq![Effect::ReleasePlayback, Effect::Exit],
            ),
        }
    }
}

/// The controller and the effects after a sequence of inputs.
pub open spec fn run(c: PlaybackController, inputs: Seq<ControlInput>) -> (PlaybackController, Seq<Effect>)
    decreases inputs.len(),
{
    if inputs.len() == 0 {
        (c, seq![])
    } else {
        let (c1, e1) = transition(c, inputs[0]);
        let (c2, e2) = run(c1, inputs.drop_first());
        (c2, e1 + e2)
    }
}

/// The events among a sequence of effects, in order.
pub open spec fn notices(effects: Seq<Effect>) -> Seq<Notice>
    decreases effects.len(),
{
    if effects.len() == 0 {
        seq![]
    } else {
        let rest = notices(effects.drop_first());
        match effects[0] {
            Effect::Emit(n) => seq![n] + rest,
            _ => rest,
        }
    }
}

/// What one iteration of the control loop does besides handling a command.
#[derive(Clone, Copy, Debug, PartialEq, Eq, Structural)]
pub struct TickPlan {
    /// Decode one chunk and queue it for the device.
    pub decode: bool,
    /// Send a position event.
    pub report_position: bool,
    /// Send the current capture snapshot.
    pub send_visualization: bool,
}

fn push2(a: Effect, b: Effect) -> (r: Vec<Effect>)
    ensures
        r@ == seq![a, b],
{
    let mut v: Vec<Effect> = Vec::new();
    v.push(a);
    v.push(b);
    v
}

fn push1(a: Effect) -> (r: Vec<Effect>)
    ensures
        r@ == seq![a],
{
    let mut v: Vec<Effect> = Vec::new();
    v.push(a);
    v
}

impl PlaybackController {
    /// A running controller with nothing loaded.
    pub fn new() -> (r: Self)
        ensures
            well_formed(r),
            r.state is Idle,
            r.awaiting is Nothing,
            r.running,
    {
        PlaybackController { state: PlaybackState::Idle, awaiting: Awaiting::Nothing, running: true }
    }

    fn set(&mut self, state: PlaybackState, awaiting: Awaiting)
        ensures
            *final(self) == with(*old(self), state, awaiting),
    {
        self.state = state;
        self.awaiting = awaiting;
    }

    /// Takes one input and returns the effects to perform, in order.
    pub fn step(&mut self, input: ControlInput) -> (effects: Vec<Effect>)
        ensures
            (*final(self), effects@) == transition(*old(self), input),
    {
        if !self.running {
            return Vec::new();
        }
        let settled = match self.awaiting {
            Awaiting::Nothing => true,
            _ => false,
        };
        match input {
            ControlInput::Play => {
                self.set(PlaybackState::Idle, Awaiting::Probe);
                push2(Effect::ReleasePlayback, Effect::ProbeTrack)
            },
            ControlInput::TrackProbed(ok) => {
                if self.awaiting != Awaiting::Probe {
                    Vec::new()
                } else if ok {
                    self.set(PlaybackState::Loaded, Awaiting::Nothing);
                    push2(Effect::Emit(Notice::TrackLoaded), Effect::OpenPipeline)
                } else {
                    self.set(PlaybackState::Idle, Awaiting::Nothing);
                    push1(Effect::Emit(Notice::LoadFailed))
                }
            },
            ControlInput::PipelineOpened(ok) => {
                if !(settled && self.state == PlaybackState::Loaded) {
                    Vec::new()
                } else if ok {
                    self.set(PlaybackState::Playing, Awaiting::Nothing);
                    push1(Effect::Emit(Notice::Playing))
                } else {
                    self.set(PlaybackState::Idle, Awaiting::Nothing);
                    push2(Effect::ReleasePlayback, Effect::Emit(Notice::PlayFailed))
                }
            },
            ControlInput::Pause => {
                if settled && self.state == PlaybackState::Playing {
                    self.set(PlaybackState::Paused, Awaiting::Nothing);
                    push2(Effect::PauseOutput, Effect::Emit(Notice::Paused))
                } else {
                    Vec::new()
                }
            },
            ControlInput::Resume => {
                if settled && self.state == PlaybackState::Paused {
                    self.set(PlaybackState::Playing, Awaiting::Nothing);
                    push2(Effect::ResumeOutput, Effect::Emit(Notice::Playing))
                } else {
                    Vec::new()
                }
            },
            ControlInput::Stop => {
                self.set(PlaybackState::Idle, Awaiting::Nothing);
                push2(Effect::ReleasePlayback, Effect::Emit(Notice::Stopped))
            },
            ControlInput::Seek => {
                if settled && (self.state == PlaybackState::Playing || self.state
                    == PlaybackState::Paused) {
                    let s = self.state;
                    self.set(s, Awaiting::Seek);
                    push1(Effect::SeekDecoder)
                } else {
                    Vec::new()
                }
            },
            ControlInput::SeekFinished(ok) => {
                if self.awaiting != Awaiting::Seek {
                    Vec::new()
                } else if ok {
                    let s = self.state;
                    self.set(s, Awaiting::Nothing);
                    let notice = if s == PlaybackState::Paused {
                        Notice::Paused
                    } else {
                        Notice::Playing
                    };
                    push2(Effect::ClearOutput, Effect::Emit(notice))
                } else {
                    self.set(PlaybackState::Idle, Awaiting::Nothing);
                    push2(Effect::ReleasePlayback, Effect::Emit(Notice::SeekFailed))
                }
            },
            ControlInput::Next => {
                self.set(PlaybackState::Idle, Awaiting::Nothing);
                push2(Effect::ReleasePlayback, Effect::Emit(Notice::RequestNext))
            },
            ControlInput::Previous => {
                self.set(PlaybackState::Idle, Awaiting::Nothing);
                push2(Effect::ReleasePlayback, Effect::Emit(Notice::RequestPrevious))
            },
            ControlInput::EndOfStream => {
                if settled && self.state == PlaybackState::Playing {
                    self.set(PlaybackState::Idle, Awaiting::Nothing);
                    push2(Effect::ReleasePlayback, Effect::Emit(Notice::Finished))
                } else {
                    Vec::new()
                }
            },
            ControlInput::Shutdown => {
                self.state = PlaybackState::Idle;
                self.awaiting = Awaiting::Nothing;
                self.running = false;
                push2(Effect::ReleasePlayback, Effect::Exit)
            },
        }
    }

    /// True while a track is playing and unpaused, with no seek under way.
    pub fn is_active(&self) -> (r: bool)
        ensures
            r == (self.running && self.state is Playing && self.awaiting is Nothing),
    {
        self.running && self.state == PlaybackState::Playing && self.awaiting == Awaiting::Nothing
    }

    /// What this loop iteration does: while active, decode a chunk when the
    /// output runs low, report the position at most every
    /// `POSITION_INTERVAL_MS`, and send the capture snapshot.
    pub fn plan_tick(&self, output_needs_data: bool, ms_since_position: u64) -> (r: TickPlan)
        ensures
            ({
                let active = self.running && self.state is Playing && self.awaiting is Nothing;
                r == TickPlan {
                    decode: active && output_needs_data,
                    report_position: active && ms_since_position >= POSITION_INTERVAL_MS,
                    send_visualization: active,
                }
            }),
    {
        let active = self.is_active();
        TickPlan {
            decode: active && output_needs_data,
            report_position: active && ms_since_position >= POSITION_INTERVAL_MS,
            send_visualization: active,
        }
    }
}

/// After any failure event the controller is idle, with nothing pending.
pub proof fn lemma_failure_leaves_idle(c: PlaybackController, input: ControlInput)
    ensures
        ({
            let (next, effects) = transition(c, input);
            (exists|i: int| 0 <= i < effects.len() && #[trigger] reports_failure(effects[i]))
                ==> next.state is Idle && next.awaiting is Nothing
        }),
{
}

/// A played, paused, resumed and stopped track reports, in this order:
/// loaded, playing, paused, playing, stopped; and the controller ends idle.
pub proof fn lemma_play_pause_resume_stop(c: PlaybackController)
    requires
        c.running,
    ensures
        ({
            let (end, effects) = run(
                c,
                seq![
                    ControlInput::Play,
                    ControlInput::TrackProbed(true),
                    ControlInput::PipelineOpened(true),
                    ControlInput::Pause,
                    ControlInput::Resume,
                    ControlInput::Stop,
                ],
            );
            &&& notices(effects) == seq![
                Notice::TrackLoaded,
                Notice::Playing,
                Notice::Paused,
                Notice::Playing,
                Notice::Stopped,
            ]
            &&& end.state is Idle
        }),
{
    let inputs = seq![
        ControlInput::Play,
        ControlInput::TrackProbed(true),
        ControlInput::PipelineOpened(true),
        ControlInput::Pause,
        ControlInput::Resume,
        ControlInput::Stop,
    ];
    reveal_with_fuel(run, 7);
    reveal_with_fuel(notices, 12);
    assert(inputs.drop_first().drop_first().drop_first().drop_first().drop_first().drop_first()
        =~= seq![]);
    let (end, effects) = run(c, inputs);
    assert(effects =~= seq![
        Effect::ReleasePlayback,
        Effect::ProbeTrack,
        Effect::Emit(Notice::TrackLoaded),
        Effect::OpenPipeline,
        Effect::Emit(Notice::Playing),
        Effect::PauseOutput,
        Effect::Emit(Notice::Paused),
        Effect::ResumeOutput,
        Effect::Emit(Notice::Playing),
        Effect::ReleasePlayback,
        Effect::Emit(Notice::Stopped),
    ]);
    assert(notices(effects) =~= seq![
        Notice::TrackLoaded,
        Notice::Playing,
        Notice::Paused,
        Notice::Playing,
        Notice::Stopped,
    ]);
}

/// A track that loads, plays and runs to its end reports loaded, playing
/// and finished, in this order, and leaves the controller idle.
pub proof fn lemma_play_to_end(c: PlaybackController)
    requires
        c.running,
    ensures
        ({
            let (end, effects) = run(
                c,
                seq![
                    ControlInput::Play,
                    ControlInput::TrackProbed(true),
                    ControlInput::PipelineOpened(true),
                    ControlInput::EndOfStream,
                ],
            );
            &&& notices(effects) == seq![Notice::TrackLoaded, Notice::Playing, Notice::Finished]
            &&& end.state is Idle
            &&& end.awaiting is Nothing
        }),
{
    let inputs = seq![
        ControlInput::Play,
        ControlInput::TrackProbed(true),
        ControlInput::PipelineOpened(true),
        ControlInput::EndOfStream,
    ];
    reveal_with_fuel(run, 5);
    reveal_with_fuel(notices, 9);
    assert(inputs.drop_first().drop_first().drop_first().drop_first() =~= seq![]);
    let (end, effects) = run(c, inputs);
    assert(effects =~= seq![
        Effect::ReleasePlayback,
        Effect::ProbeTrack,
        Effect::Emit(Notice::TrackLoaded),
        Effect::OpenPipeline,
        Effect::Emit(Notice::Playing),
        Effect::ReleasePlayback,
        Effect::Emit(Notice::Finished),
    ]);
    assert(notices(effects) =~= seq![Notice::TrackLoaded, Notice::Playing, Notice::Finished]);
}

/// A successful seek during playback or pause reports no failure, clears the
/// queued output, keeps the state that preceded it, and reports that state.
pub proof fn lemma_seek_keeps_state(c: PlaybackController)
    requires
        c.running,
        c.awaiting is Nothing,
        c.state is Playing || c.state is Paused,
    ensures
        ({
            let (end, effects) = run(c, seq![ControlInput::Seek, ControlInput::SeekFinished(true)]);
            &&& effects == seq![
                Effect::SeekDecoder,
                Effect::ClearOutput,
                Effect::Emit(if c.state is Paused { Notice::Paused } else { Notice::Playing }),
            ]
            &&& end == c
        }),
{
    let inputs = seq![ControlInput::Seek, ControlInput::SeekFinished(true)];
    reveal_with_fuel(run, 3);
    assert(inputs.drop_first().drop_first() =~= seq![]);
    let (end, effects) = run(c, inputs);
    assert(effects =~= seq![
        Effect::SeekDecoder,
        Effect::ClearOutput,
        Effect::Emit(state_notice(c.state)),
    ]);
}

/// Whether the controller holds a decoder and an output stream.
pub open spec fn holds_pipeline(c: PlaybackController) -> bool {
    c.state is Playing || c.state is Paused
}

/// The controller's invariant: a probe is awaited only while idle, a seek
/// only while a track is playing or paused.
pub open spec fn well_formed(c: PlaybackController) -> bool {
    &&& c.awaiting is Probe ==> c.state is Idle
    &&& c.awaiting is Seek ==> holds_pipeline(c)
}

/// Every transition keeps the invariant.
pub proof fn lemma_transition_well_formed(c: PlaybackController, input: ControlInput)
    requires
        well_formed(c),
    ensures
        well_formed(transition(c, input).0),
{
}

/// Playback resources never overlap: a pipeline is only opened when none is
/// held, and every transition that gives one up releases it first.
pub proof fn lemma_release_before_open(c: PlaybackController, input: ControlInput)
    requires
        well_formed(c),
    ensures
        ({
            let (next, effects) = transition(c, input);
            &&& (exists|i: int| 0 <= i < effects.len() && effects[i] == Effect::OpenPipeline)
                ==> !holds_pipeline(c)
            &&& (holds_pipeline(c) && !holds_pipeline(next)) ==> effects.len() > 0
                && effects[0] == Effect::ReleasePlayback
        }),
{
}

/// Shutdown is taken in every running state: it releases playback, ends the
/// loop and leaves the controller stopped.
pub proof fn lemma_shutdown_from_any_state(c: PlaybackController)
    requires
        c.running,
    ensures
        ({
            let (next, effects) = transition(c, ControlInput::Shutdown);
            &&& effects == seq![Effect::ReleasePlayback, Effect::Exit]
            &&& !next.running
            &&& forall|input: ControlInput| transition(next, input) == (next, Seq::<Effect>::empty())
        }),
{
}

} // verus!
