//! One round of the update loop, from the tick to the closed session.
//!
//! A `TickRun` decides what is done for one tick and in which order: whether
//! the tick is skipped, the requests that bring the link up, the attempts to
//! open a session with the one climb of the recovery ladder between them,
//! the delivery of the frame, the hourly chime, and the close of the session.
//! It names one action at a time and is told what came of it.

use vstd::prelude::*;
use crate::frame::RenderedFrame;
use crate::link::{LinkJob, LinkOp, LinkOutcome, LinkReply, LinkStep, Plan};
use crate::link::{lemma_advance_descends, lemma_started_rank};
use crate::schedule::{DayWindow, Tick, night_time};
use crate::transport::{Operation, chime, play_audio_for_hour};
use crate::usb::UsbId;

verus! {

/// Why a session could not be opened.
#[derive(Clone, Copy, Debug, PartialEq, Eq, Structural)]
pub enum OpenError {
    /// The device did not answer in time, or could not be reached.
    Connect,
    /// The device answered, but handshake or credentials were refused.
    Auth,
}

/// The stages of opening a session, in order.
#[derive(Clone, Copy, Debug, PartialEq, Eq, Structural)]
pub enum OpenStage {
    /// The connection is made, within the time allowed for it.
    Connect,
    /// The two ends agree on how to talk.
    Handshake,
    /// The credentials are presented.
    Login,
}

impl OpenStage {
    /// What a failure at this stage counts as. Only a connection that did
    /// not come about is worth a climb of the recovery ladder: once the
    /// device has answered, the link is not what is wrong.
    pub open spec fn failure_kind(self) -> OpenError {
        match self {
            OpenStage::Connect => OpenError::Connect,
            _ => OpenError::Auth,
        }
    }

    /// What a failure at this stage counts as.
    pub fn failure(self) -> (r: OpenError)
        ensures
            r == self.failure_kind(),
    {
        match self {
            OpenStage::Connect => OpenError::Connect,
            OpenStage::Handshake => OpenError::Auth,
            OpenStage::Login => OpenError::Auth,
        }
    }
}

/// Why a tick was given up.
#[derive(Clone, Copy, Debug, PartialEq, Eq, Structural)]
pub enum Failure {
    /// The link could not be brought up.
    Link(LinkOutcome),
    /// No connection, not even after the recovery ladder.
    Connect,
    Auth,
    /// The frame could not be copied or shown.
    Transfer,
    /// The frame was shown, but the chime could not be played.
    Audio,
}

/// How a tick ended.
#[derive(Clone, Copy, Debug, PartialEq, Eq, Structural)]
pub enum TickOutcome {
    /// A tick of the night that is no multiple of five minutes.
    Skipped,
    Completed,
    Abandoned(Failure),
}

/// What the driver of a run is to do next.
#[derive(Clone, Copy, Debug, PartialEq, Eq, Structural)]
pub enum Action {
    Link(LinkOp),
    /// Open a session: connect, shake hands, authenticate.
    Open,
    /// Run the operation on the open session.
    Run(Operation),
    /// Log out and shut the connection down.
    Close,
    /// Nothing is left to do for this tick.
    Finish(TickOutcome),
}

/// What came of the action that a run asked for.
#[derive(Clone, Debug, PartialEq, Eq)]
pub enum Event {
    Link(LinkReply),
    Opened,
    OpenFailed(OpenError),
    /// The operation went through.
    Done,
    /// The operation failed.
    Failed,
    Closed,
}

/// Where a run stands.
#[derive(Clone, Copy, Debug, PartialEq, Eq, Structural)]
pub enum Phase {
    /// The link is being brought up.
    Linking(LinkJob),
    /// A session is being opened; `retried` after the recovery ladder.
    Opening { retried: bool },
    /// The recovery ladder is being climbed.
    Recovering(LinkJob),
    /// The frame is on its way.
    Delivering,
    /// The operation at `position` of the chime is under way.
    Chiming { position: usize },
    /// The session is being closed.
    Closing(TickOutcome),
    Idle(TickOutcome),
}

/// The round of the update loop for one tick.
#[derive(Clone, Copy, Debug, PartialEq, Eq, Structural)]
pub struct TickRun {
    pub minute: u32,
    pub hour: u32,
    pub hour12: u32,
    pub night: bool,
    /// The device that the recovery ladder resets.
    pub device: UsbId,
    pub phase: Phase,
}

impl Event {
    /// The event as an answer to a link request; any other event counts as
    /// a request that failed.
    pub open spec fn as_reply(self) -> LinkReply {
        match self {
            Event::Link(reply) => reply,
            _ => LinkReply::Failed,
        }
    }
}

impl Phase {
    /// Whether a session is open in this phase.
    pub open spec fn holds_session(self) -> bool {
        self is Delivering || self is Chiming
    }

    /// An upper bound on the events that a run in this phase still takes.
    pub open spec fn rank(self) -> nat {
        match self {
            Phase::Linking(job) => 20 + job.rank(),
            Phase::Opening { retried: false } => 19,
            Phase::Recovering(job) => 7 + job.rank(),
            Phase::Opening { retried: true } => 6,
            Phase::Delivering => 5,
            Phase::Chiming { position } => if position == 0 {
                4
            } else {
                3
            },
            Phase::Closing(_) => 1,
            Phase::Idle(_) => 0,
        }
    }
}

impl Phase {
    /// Sessions that a run in this phase holds open.
    pub open spec fn live(self) -> nat {
        if self.holds_session() {
            1
        } else {
            0
        }
    }

    /// Sessions that a run in this phase may still come to open.
    pub open spec fn sessions_ahead(self) -> nat {
        if self is Linking || self is Opening || self is Recovering {
            1
        } else {
            0
        }
    }

    /// Attempts to open a session that a run in this phase may still make.
    pub open spec fn attempts_ahead(self) -> nat {
        match self {
            Phase::Linking(_) => 2,
            Phase::Opening { retried: false } => 1,
            Phase::Recovering(_) => 1,
            _ => 0,
        }
    }
}

impl TickRun {
    /// Whether the tick is one that is skipped: a tick of the night whose
    /// minute is no multiple of five.
    pub open spec fn throttled(minute: int, night: bool) -> bool {
        night && minute % 5 != 0
    }

    /// Whether the chime is due: at the top of an hour of the day.
    pub open spec fn chimes(self) -> bool {
        self.minute == 0 && !self.night
    }

    /// The run with its phase changed.
    pub open spec fn at(self, phase: Phase) -> TickRun {
        TickRun { phase, ..self }
    }

    /// The run that ends here with `outcome`, no session being open.
    pub open spec fn ended(self, outcome: TickOutcome) -> (TickRun, Action) {
        (self.at(Phase::Idle(outcome)), Action::Finish(outcome))
    }

    /// The run that closes its session and will end with `outcome`.
    pub open spec fn closing(self, outcome: TickOutcome) -> (TickRun, Action) {
        (self.at(Phase::Closing(outcome)), Action::Close)
    }

    /// A fresh run for a tick with the given fields of its time of day, and
    /// its first action.
    pub open spec fn begun(
        minute: u32,
        hour: u32,
        hour12: u32,
        night: bool,
        device: UsbId,
    ) -> (TickRun, Action) {
        let run = TickRun {
            minute,
            hour,
            hour12,
            night,
            device,
            phase: Phase::Idle(TickOutcome::Skipped),
        };
        if Self::throttled(minute as int, night) {
            run.ended(TickOutcome::Skipped)
        } else {
            match LinkJob::started(Plan::EnsureUp) {
                (job, LinkStep::Ask(op)) => (run.at(Phase::Linking(job)), Action::Link(op)),
                (_, LinkStep::Finished(outcome)) => run.ended(
                    TickOutcome::Abandoned(Failure::Link(outcome)),
                ),
            }
        }
    }

    /// The run after `event` has come in for its pending action, and the
    /// action that it asks for next.
    pub open spec fn next(self, event: Event) -> (TickRun, Action) {
        match self.phase {
            Phase::Linking(job) => match job.next(event.as_reply()) {
                (moved, LinkStep::Ask(op)) => (self.at(Phase::Linking(moved)), Action::Link(op)),
                (_, LinkStep::Finished(LinkOutcome::Ready)) => (
                    self.at(Phase::Opening { retried: false }),
                    Action::Open,
                ),
                (_, LinkStep::Finished(outcome)) => self.ended(
                    TickOutcome::Abandoned(Failure::Link(outcome)),
                ),
            },
            Phase::Opening { retried } => match event {
                Event::Opened => (
                    self.at(Phase::Delivering),
                    Action::Run(Operation::Deliver { full_refresh: self.minute == 0 }),
                ),
                Event::OpenFailed(OpenError::Auth) => self.ended(
                    TickOutcome::Abandoned(Failure::Auth),
                ),
                _ => if retried {
                    self.ended(TickOutcome::Abandoned(Failure::Connect))
                } else {
                    match LinkJob::started(Plan::Recover { device: self.device }) {
                        (job, LinkStep::Ask(op)) => (
                            self.at(Phase::Recovering(job)),
                            Action::Link(op),
                        ),
                        (_, LinkStep::Finished(_)) => (
                            self.at(Phase::Opening { retried: true }),
                            Action::Open,
                        ),
                    }
                },
            },
            Phase::Recovering(job) => match job.next(event.as_reply()) {
                (moved, LinkStep::Ask(op)) => (
                    self.at(Phase::Recovering(moved)),
                    Action::Link(op),
                ),
                (_, LinkStep::Finished(_)) => (
                    self.at(Phase::Opening { retried: true }),
                    Action::Open,
                ),
            },
            Phase::Delivering => match event {
                Event::Done => if self.chimes() {
                    (self.at(Phase::Chiming { position: 0 }), Action::Run(chime(self.hour12)[0]))
                } else {
                    self.closing(TickOutcome::Completed)
                },
                _ => self.closing(TickOutcome::Abandoned(Failure::Transfer)),
            },
            Phase::Chiming { position } => match event {
                Event::Done => if position == 0 && chime(self.hour12).len() > 1 {
                    (self.at(Phase::Chiming { position: 1 }), Action::Run(chime(self.hour12)[1]))
                } else {
                    self.closing(TickOutcome::Completed)
                },
                _ => self.closing(TickOutcome::Abandoned(Failure::Audio)),
            },
            Phase::Closing(outcome) => self.ended(outcome),
            Phase::Idle(outcome) => self.ended(outcome),
        }
    }

    /// The run after the events in `events` have come in, one by one.
    pub open spec fn after(self, events: Seq<Event>) -> TickRun
        decreases events.len(),
    {
        if events.len() == 0 {
            self
        } else {
            self.next(events[0]).0.after(events.drop_first())
        }
    }

    /// How often the run asks for `wanted` in the course of `events`.
    pub open spec fn asked(self, events: Seq<Event>, wanted: Action) -> nat
        decreases events.len(),
    {
        if events.len() == 0 {
            0
        } else {
            let moved = self.next(events[0]);
            (if moved.1 == wanted {
                1nat
            } else {
                0nat
            }) + moved.0.asked(events.drop_first(), wanted)
        }
    }

    /// How many sessions are opened for the run in the course of `events`:
    /// the times that it is told of an open session while it waits for one.
    pub open spec fn sessions(self, events: Seq<Event>) -> nat
        decreases events.len(),
    {
        if events.len() == 0 {
            0
        } else {
            (if self.phase is Opening && events[0] is Opened {
                1nat
            } else {
                0nat
            }) + self.next(events[0]).0.sessions(events.drop_first())
        }
    }

    /// Starts the round for the tick that `frame` shows.
    pub fn begin(frame: &RenderedFrame, window: &DayWindow, device: UsbId) -> (r: (
        TickRun,
        Action,
    ))
        ensures
            r == TickRun::begun(
                frame.tick().spec_minute() as u32,
                frame.tick().spec_hour() as u32,
                frame.tick().spec_hour12() as u32,
                window.is_night(frame.tick().spec_hour()),
                device,
            ),
            frame.full_refresh() <==> r.0.minute == 0,
            r.0.minute < 60,
            r.0.hour < 24,
            1 <= r.0.hour12 <= 12,
    {
        let tick: Tick = frame.shown_tick();
        proof {
            use_type_invariant(frame);
        }
        let minute: u32 = tick.minute();
        let night: bool = night_time(&tick, window);
        let run = TickRun {
            minute,
            hour: tick.hour(),
            hour12: tick.hour12().1,
            night,
            device,
            phase: Phase::Idle(TickOutcome::Skipped),
        };
        if night && minute % 5 != 0 {
            (run, Action::Finish(TickOutcome::Skipped))
        } else {
            let (job, op): (LinkJob, LinkOp) = LinkJob::start(Plan::EnsureUp);
            (TickRun { phase: Phase::Linking(job), ..run }, Action::Link(op))
        }
    }

    fn end(self, outcome: TickOutcome) -> (r: (TickRun, Action))
        ensures
            r == self.ended(outcome),
    {
        (TickRun { phase: Phase::Idle(outcome), ..self }, Action::Finish(outcome))
    }

    fn close(self, outcome: TickOutcome) -> (r: (TickRun, Action))
        ensures
            r == self.closing(outcome),
    {
        (TickRun { phase: Phase::Closing(outcome), ..self }, Action::Close)
    }

    fn reopen(self) -> (r: (TickRun, Action))
        ensures
            r == (self.at(Phase::Opening { retried: true }), Action::Open),
    {
        (TickRun { phase: Phase::Opening { retried: true }, ..self }, Action::Open)
    }

    /// Takes what came of the pending action and says what is done next.
    #[verifier::rlimit(40)]
    pub fn step(self, event: &Event) -> (r: (TickRun, Action))
        ensures
            r == self.next(*event),
    {
        match self.phase {
            Phase::Linking(job) => {
                let (moved, step): (LinkJob, LinkStep) = match event {
                    Event::Link(reply) => job.advance(reply),
                    _ => job.advance(&LinkReply::Failed),
                };
                match step {
                    LinkStep::Ask(op) => (
                        TickRun { phase: Phase::Linking(moved), ..self },
                        Action::Link(op),
                    ),
                    LinkStep::Finished(LinkOutcome::Ready) => (
                        TickRun { phase: Phase::Opening { retried: false }, ..self },
                        Action::Open,
                    ),
                    LinkStep::Finished(outcome) => self.end(
                        TickOutcome::Abandoned(Failure::Link(outcome)),
                    ),
                }
            },
            Phase::Opening { retried } => match event {
                Event::Opened => (
                    TickRun { phase: Phase::Delivering, ..self },
                    Action::Run(Operation::Deliver { full_refresh: self.minute == 0 }),
                ),
                Event::OpenFailed(OpenError::Auth) => self.end(
                    TickOutcome::Abandoned(Failure::Auth),
                ),
                _ => {
                    if retried {
                        self.end(TickOutcome::Abandoned(Failure::Connect))
                    } else {
                        let (job, op): (LinkJob, LinkOp) = LinkJob::start(
                            Plan::Recover { device: self.device },
                        );
                        (TickRun { phase: Phase::Recovering(job), ..self }, Action::Link(op))
                    }
                },
            },
            Phase::Recovering(job) => {
                let (moved, step): (LinkJob, LinkStep) = match event {
                    Event::Link(reply) => job.advance(reply),
                    _ => job.advance(&LinkReply::Failed),
                };
                match step {
                    LinkStep::Ask(op) => (
                        TickRun { phase: Phase::Recovering(moved), ..self },
                        Action::Link(op),
                    ),
                    LinkStep::Finished(_) => self.reopen(),
                }
            },
            Phase::Delivering => match event {
                Event::Done => {
                    if self.minute == 0 && !self.night {
                        let ops: Vec<Operation> = play_audio_for_hour(self.hour, self.hour12);
                        (
                            TickRun { phase: Phase::Chiming { position: 0 }, ..self },
                            Action::Run(ops[0]),
                        )
                    } else {
                        self.close(TickOutcome::Completed)
                    }
                },
                _ => self.close(TickOutcome::Abandoned(Failure::Transfer)),
            },
            Phase::Chiming { position } => match event {
                Event::Done => {
                    let ops: Vec<Operation> = play_audio_for_hour(self.hour, self.hour12);
                    if position == 0 && ops.len() > 1 {
                        (
                            TickRun { phase: Phase::Chiming { position: 1 }, ..self },
                            Action::Run(ops[1]),
                        )
                    } else {
                        self.close(TickOutcome::Completed)
                    }
                },
                _ => self.close(TickOutcome::Abandoned(Failure::Audio)),
            },
            Phase::Closing(outcome) => self.end(outcome),
            Phase::Idle(outcome) => self.end(outcome),
        }
    }
}

/// The most events that one round takes, whatever they are.
pub const ROUND_BOUND: u32 = 25;

/// Every event brings a run that has not ended strictly closer to its end.
/// A step changes nothing of a run but its phase.
#[verifier::rlimit(40)]
pub proof fn lemma_step_descends(run: TickRun, event: Event)
    ensures
        !(run.phase is Idle) ==> run.next(event).0.phase.rank() < run.phase.rank(),
        run.phase is Idle ==> run.next(event).0 == run,
        run.next(event).0 == run.at(run.next(event).0.phase),
        run.next(event).1 is Finish <==> run.next(event).0.phase is Idle,
{
    match run.phase {
        Phase::Linking(job) => {
            lemma_advance_descends(job, event.as_reply());
        },
        Phase::Recovering(job) => {
            lemma_advance_descends(job, event.as_reply());
        },
        Phase::Opening { .. } => {
            lemma_started_rank(Plan::Recover { device: run.device });
        },
        _ => {},
    }
}

/// A fresh run is at most `ROUND_BOUND` events from its end.
pub proof fn lemma_begun_rank(
    minute: u32,
    hour: u32,
    hour12: u32,
    night: bool,
    device: UsbId,
)
    ensures
        TickRun::begun(minute, hour, hour12, night, device).0.phase.rank()
            <= ROUND_BOUND,
{
    lemma_started_rank(Plan::EnsureUp);
}

/// A run ends within as many events as the rank of its phase says, whatever
/// the events are: no tick can hold up the ticks that follow.
pub proof fn lemma_run_terminates(run: TickRun, events: Seq<Event>)
    requires
        events.len() >= run.phase.rank(),
    ensures
        run.after(events).phase is Idle,
    decreases events.len(),
{
    if events.len() > 0 {
        lemma_step_descends(run, events[0]);
        lemma_run_terminates(run.next(events[0]).0, events.drop_first());
    }
}

/// What one step does to the session. A session comes to be held only by
/// an open that succeeded, and ceases to be held only by a close; a close is
/// asked for only of a run that holds a session, an open only of one that
/// holds none, and an operation only of one that holds a session and goes
/// on holding it. A run that ends holds none.
#[verifier::rlimit(40)]
pub proof fn lemma_step_session(run: TickRun, event: Event)
    ensures
        run.next(event).0.phase.live() + (if run.next(event).1 == Action::Close {
            1nat
        } else {
            0nat
        }) == run.phase.live() + (if run.phase is Opening && event is Opened {
            1nat
        } else {
            0nat
        }),
        run.next(event).1 is Run ==> run.next(event).0.phase.holds_session(),
        run.next(event).1 == Action::Open ==> !run.phase.holds_session(),
        run.next(event).1 is Finish ==> !run.phase.holds_session(),
        run.next(event).0.phase.sessions_ahead() + (if run.phase is Opening && event is Opened {
            1nat
        } else {
            0nat
        }) <= run.phase.sessions_ahead(),
        run.next(event).0.phase.attempts_ahead() + (if run.next(event).1 == Action::Open {
            1nat
        } else {
            0nat
        }) <= run.phase.attempts_ahead(),
{
}

/// Over any course of events, the closes that a run asks for and the
/// session that it holds in the end make up the session that it held at
/// first and the sessions that were opened for it: none is leaked and none
/// is closed twice. No more sessions are opened and no more attempts are
/// made than the phase at first leaves room for.
pub proof fn lemma_session_balance(run: TickRun, events: Seq<Event>)
    ensures
        run.asked(events, Action::Close) + run.after(events).phase.live() == run.phase.live()
            + run.sessions(events),
        run.sessions(events) + run.after(events).phase.sessions_ahead()
            <= run.phase.sessions_ahead(),
        run.asked(events, Action::Open) + run.after(events).phase.attempts_ahead()
            <= run.phase.attempts_ahead(),
    decreases events.len(),
{
    if events.len() > 0 {
        lemma_step_session(run, events[0]);
        lemma_session_balance(run.next(events[0]).0, events.drop_first());
    }
}

/// In a round that is run to its end, a session is opened at most once, at
/// most two attempts are made to open one, and a close is asked for exactly
/// as often as a session was opened.
pub proof fn lemma_session_closed_once(
    minute: u32,
    hour: u32,
    hour12: u32,
    night: bool,
    device: UsbId,
    events: Seq<Event>,
)
    requires
        events.len() >= ROUND_BOUND,
    ensures
        ({
            let run = TickRun::begun(minute, hour, hour12, night, device).0;
            &&& run.after(events).phase is Idle
            &&& run.sessions(events) <= 1
            &&& run.asked(events, Action::Close) == run.sessions(events)
            &&& run.asked(events, Action::Open) <= 2
        }),
{
    let run = TickRun::begun(minute, hour, hour12, night, device).0;
    lemma_begun_rank(minute, hour, hour12, night, device);
    lemma_run_terminates(run, events);
    lemma_session_balance(run, events);
}

/// A run that has ended asks for nothing but to be left alone.
pub proof fn lemma_idle_asks_nothing(run: TickRun, events: Seq<Event>, wanted: Action)
    requires
        run.phase is Idle,
        !(wanted is Finish),
    ensures
        run.asked(events, wanted) == 0,
    decreases events.len(),
{
    if events.len() > 0 {
        lemma_idle_asks_nothing(run.next(events[0]).0, events.drop_first(), wanted);
    }
}

/// A tick of the night whose minute is no multiple of five is skipped: the
/// round ends at once, and whatever events follow, it asks for no link
/// request, no session and no operation.
pub proof fn lemma_night_throttle(
    minute: u32,
    hour: u32,
    hour12: u32,
    device: UsbId,
    events: Seq<Event>,
    wanted: Action,
)
    requires
        minute % 5 != 0,
        !(wanted is Finish),
    ensures
        TickRun::begun(minute, hour, hour12, true, device).1 == Action::Finish(
            TickOutcome::Skipped,
        ),
        TickRun::begun(minute, hour, hour12, true, device).0.asked(events, wanted)
            == 0,
{
    lemma_idle_asks_nothing(
        TickRun::begun(minute, hour, hour12, true, device).0,
        events,
        wanted,
    );
}

/// Any other tick takes the link in hand first.
pub proof fn lemma_other_ticks_start(
    minute: u32,
    hour: u32,
    hour12: u32,
    night: bool,
    device: UsbId,
)
    requires
        !night || minute % 5 == 0,
    ensures
        TickRun::begun(minute, hour, hour12, night, device).1 == Action::Link(
            LinkOp::FindAddress,
        ),
{
}

/// At the top of an hour of the day, a delivery that went through is always
/// followed by the chime: the volume is set, then the clip of the hour is
/// played, then the session is closed. At any other tick the session is
/// closed right after the delivery.
pub proof fn lemma_chime_follows_delivery(run: TickRun)
    requires
        run.phase is Delivering,
        1 <= run.hour12 <= 12,
    ensures
        run.chimes() ==> {
            let volume = run.next(Event::Done);
            let play = volume.0.next(Event::Done);
            let close = play.0.next(Event::Done);
            &&& volume.1 == Action::Run(
                Operation::SetVolume { percent: crate::transport::CHIME_VOLUME },
            )
            &&& play.1 == Action::Run(Operation::PlayAudio { hour12: run.hour12 })
            &&& close.1 == Action::Close
            &&& close.0.phase == Phase::Closing(TickOutcome::Completed)
        },
        !run.chimes() ==> run.next(Event::Done) == run.closing(TickOutcome::Completed),
{
}

/// A delivery is asked for with a full refresh at minute 0 and at no
/// other minute.
pub proof fn lemma_full_refresh(run: TickRun, event: Event)
    ensures
        run.next(event).1 matches Action::Run(Operation::Deliver { full_refresh })
            ==> (full_refresh <==> run.minute == 0),
        run.next(event).0.minute == run.minute,
{
}

/// When a connection fails, the ladder is climbed once and a second attempt
/// is made; when that fails too, the tick is given up. A refusal of the
/// credentials is never answered with the ladder.
pub proof fn lemma_open_failures(run: TickRun, retried: bool)
    requires
        run.phase == (Phase::Opening { retried }),
    ensures
        !retried ==> run.next(Event::OpenFailed(OpenError::Connect)).1 == Action::Link(
            LinkOp::FindAddress,
        ) && run.next(Event::OpenFailed(OpenError::Connect)).0.phase is Recovering,
        retried ==> run.next(Event::OpenFailed(OpenError::Connect)) == run.ended(
            TickOutcome::Abandoned(Failure::Connect),
        ),
        run.next(Event::OpenFailed(OpenError::Auth)) == run.ended(
            TickOutcome::Abandoned(Failure::Auth),
        ),
{
}

/// The ladder is climbed only after the link had been brought up and a
/// first attempt to connect failed: a run comes to climb it from no phase
/// but that of the first attempt, and comes to the first attempt from no
/// phase but that in which the link is brought up, and only when that ended
/// well.
pub proof fn lemma_ladder_entry(run: TickRun, event: Event)
    ensures
        run.next(event).0.phase is Recovering && !(run.phase is Recovering) ==> run.phase == (
            Phase::Opening { retried: false }
        ) && !(event is Opened) && event != Event::OpenFailed(OpenError::Auth),
        run.next(event).0.phase == (Phase::Opening { retried: false }) ==> (run.phase matches Phase::Linking(
            job,
        ) && job.next(event.as_reply()).1 == LinkStep::Finished(LinkOutcome::Ready)),
{
}

/// When an operation of the session fails, the session is closed and the
/// tick ends as given up.
pub proof fn lemma_failed_operation_closes(run: TickRun)
    requires
        run.phase.holds_session(),
    ensures
        run.next(Event::Failed).1 == Action::Close,
        run.next(Event::Failed).0.phase matches Phase::Closing(TickOutcome::Abandoned(_)),
        run.next(Event::Failed).0.next(Event::Closed).1 is Finish,
{
}

} // verus!
