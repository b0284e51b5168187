//! What is sent over the command channel: the files that are copied to the
//! device, the commands that are run there, and the order of both for each
//! operation of a session.

use vstd::prelude::*;
use vstd::string::*;
use crate::text::{decimal, push_decimal};

verus! {

/// Volume, in percent, at which the hourly chime is played.
pub const CHIME_VOLUME: u8 = 20;

/// Permission bits of every file that is copied to the device.
pub const REMOTE_MODE: i32 = 0o644;

/// A buffer that is copied to the device.
#[derive(Clone, Copy, Debug, PartialEq, Eq, Structural)]
pub enum Payload {
    /// The rendered frame.
    Frame,
    /// The chime of the given hour of the twelve-hour dial.
    Chime { hour12: u32 },
}

/// A command that is run on the device.
#[derive(Clone, Copy, Debug, PartialEq, Eq, Structural)]
pub enum Command {
    /// Show the frame that was copied; `full` clears the panel first.
    Refresh { full: bool },
    /// Set the master volume.
    Volume { percent: u8 },
    /// Play the chime that was copied, without waiting for its end.
    Play,
}

/// One step on the command channel.
#[derive(Clone, Copy, Debug, PartialEq, Eq, Structural)]
pub enum RemoteOp {
    Copy(Payload),
    Exec(Command),
}

/// An operation of a session; each is a short run of steps, and fails as a
/// whole when one of them fails.
#[derive(Clone, Copy, Debug, PartialEq, Eq, Structural)]
pub enum Operation {
    Deliver { full_refresh: bool },
    SetVolume { percent: u8 },
    PlayAudio { hour12: u32 },
}

/// What follows a step of an operation.
#[derive(Clone, Copy, Debug, PartialEq, Eq, Structural)]
pub enum Turn {
    /// The step that is run next.
    Run(RemoteOp),
    /// Every step went through: the operation has succeeded.
    Done,
    /// A step failed: the operation has failed, and none of its later
    /// steps is run.
    Failed,
}

impl Payload {
    /// Where on the device the buffer is put.
    pub open spec fn remote_path(self) -> Seq<char> {
        match self {
            Payload::Frame => "/dev/shm/out.png"@,
            Payload::Chime { .. } => "/dev/shm/out.wav"@,
        }
    }

    /// Where on the device the buffer is put.
    pub fn path(&self) -> (r: &'static str)
        ensures
            r@ == self.remote_path(),
    {
        match self {
            Payload::Frame => "/dev/shm/out.png",
            Payload::Chime { .. } => "/dev/shm/out.wav",
        }
    }
}

impl Command {
    /// The command line as the device's shell gets it.
    pub open spec fn text(self) -> Seq<char> {
        match self {
            Command::Refresh { full: true } => "/usr/sbin/eips -f -g /dev/shm/out.png"@,
            Command::Refresh { full: false } => "/usr/sbin/eips -g /dev/shm/out.png"@,
            Command::Volume { percent } => "/usr/bin/amixer set Master "@ + decimal(
                percent as nat,
            ) + "%"@,
            Command::Play => "/usr/bin/aplay -v -N /dev/shm/out.wav"@,
        }
    }

    /// Writes the command line.
    pub fn line(&self) -> (r: String)
        ensures
            r@ == self.text(),
    {
        match self {
            Command::Refresh { full } => {
                if *full {
                    String::from_str("/usr/sbin/eips -f -g /dev/shm/out.png")
                } else {
                    String::from_str("/usr/sbin/eips -g /dev/shm/out.png")
                }
            },
            Command::Volume { percent } => {
                let mut text = String::from_str("/usr/bin/amixer set Master ");
                push_decimal(&mut text, *percent);
                text.append("%");
                text
            },
            Command::Play => String::from_str("/usr/bin/aplay -v -N /dev/shm/out.wav"),
        }
    }
}

impl Operation {
    /// The steps of the operation, in order.
    pub open spec fn steps(self) -> Seq<RemoteOp> {
        match self {
            Operation::Deliver { full_refresh } => seq![
                RemoteOp::Copy(Payload::Frame),
                RemoteOp::Exec(Command::Refresh { full: full_refresh }),
            ],
            Operation::SetVolume { percent } => seq![RemoteOp::Exec(Command::Volume { percent })],
            Operation::PlayAudio { hour12 } => seq![
                RemoteOp::Copy(Payload::Chime { hour12 }),
                RemoteOp::Exec(Command::Play),
            ],
        }
    }

    /// What follows the step at `position` once it has succeeded or failed:
    /// after a failure nothing more is run, and after a success the next
    /// step, if one is left.
    pub open spec fn after_step(self, position: int, succeeded: bool) -> Turn {
        if !succeeded {
            Turn::Failed
        } else if 0 <= position && position + 1 < self.steps().len() {
            Turn::Run(self.steps()[position + 1])
        } else {
            Turn::Done
        }
    }

    /// The steps that are run, from the one at `position` on, when the
    /// steps end as `outcomes` says, one after the other.
    pub open spec fn run_from(self, position: int, outcomes: Seq<bool>) -> Seq<RemoteOp>
        decreases outcomes.len(),
    {
        if outcomes.len() == 0 || position < 0 || position >= self.steps().len() {
            Seq::empty()
        } else {
            seq![self.steps()[position]] + (match self.after_step(position, outcomes[0]) {
                Turn::Run(_) => self.run_from(position + 1, outcomes.drop_first()),
                _ => Seq::empty(),
            })
        }
    }

    /// The step that the operation begins with.
    pub fn first(&self) -> (r: RemoteOp)
        ensures
            r == self.steps()[0],
    {
        match self {
            Operation::Deliver { .. } => RemoteOp::Copy(Payload::Frame),
            Operation::SetVolume { percent } => RemoteOp::Exec(Command::Volume { percent: *percent }),
            Operation::PlayAudio { hour12 } => RemoteOp::Copy(Payload::Chime { hour12: *hour12 }),
        }
    }

    /// Says what follows the step at `position`, which has succeeded or
    /// failed.
    pub fn proceed(&self, position: usize, succeeded: bool) -> (turn: Turn)
        ensures
            turn == self.after_step(position as int, succeeded),
    {
        if !succeeded {
            return Turn::Failed;
        }
        let script: Vec<RemoteOp> = self.script();
        if position < script.len() && position + 1 < script.len() {
            Turn::Run(script[position + 1])
        } else {
            Turn::Done
        }
    }

    /// The steps of the operation, in order.
    pub fn script(&self) -> (r: Vec<RemoteOp>)
        ensures
            r@ == self.steps(),
    {
        match self {
            Operation::Deliver { full_refresh } => eips_show_image(*full_refresh),
            Operation::SetVolume { percent } => amixer_set_master_volume(*percent),
            Operation::PlayAudio { hour12 } => aplay_audio_nonblocking(*hour12),
        }
    }
}

/// The steps that show the frame: it is copied to the device, then the
/// panel is refreshed from it, in full if `full_update` says so.
pub fn eips_show_image(full_update: bool) -> (script: Vec<RemoteOp>)
    ensures
        script@ == (Operation::Deliver { full_refresh: full_update }).steps(),
{
    let mut script: Vec<RemoteOp> = Vec::new();
    script.push(RemoteOp::Copy(Payload::Frame));
    script.push(RemoteOp::Exec(Command::Refresh { full: full_update }));
    assert(script@ =~= (Operation::Deliver { full_refresh: full_update }).steps());
    script
}

/// The one step that sets the master volume to `volume` percent.
pub fn amixer_set_master_volume(volume: u8) -> (script: Vec<RemoteOp>)
    ensures
        script@ == (Operation::SetVolume { percent: volume }).steps(),
{
    let mut script: Vec<RemoteOp> = Vec::new();
    script.push(RemoteOp::Exec(Command::Volume { percent: volume }));
    assert(script@ =~= (Operation::SetVolume { percent: volume }).steps());
    script
}

/// The steps that play the chime of `hour12`: the clip is copied to the
/// device and the player is started on it.
pub fn aplay_audio_nonblocking(hour12: u32) -> (script: Vec<RemoteOp>)
    ensures
        script@ == (Operation::PlayAudio { hour12 }).steps(),
{
    let mut script: Vec<RemoteOp> = Vec::new();
    script.push(RemoteOp::Copy(Payload::Chime { hour12 }));
    script.push(RemoteOp::Exec(Command::Play));
    assert(script@ =~= (Operation::PlayAudio { hour12 }).steps());
    script
}

/// The operations of the hourly chime: the volume is set, then the clip of
/// the hour is played; an hour that is none of the dial has no clip.
pub open spec fn chime(hour12: u32) -> Seq<Operation> {
    if 1 <= hour12 <= 12 {
        seq![Operation::SetVolume { percent: CHIME_VOLUME }, Operation::PlayAudio { hour12 }]
    } else {
        seq![Operation::SetVolume { percent: CHIME_VOLUME }]
    }
}

/// The operations that sound the chime for the given hour.
pub fn play_audio_for_hour(hour24: u32, hour12: u32) -> (ops: Vec<Operation>)
    ensures
        ops@ == chime(hour12),
{
    let mut ops: Vec<Operation> = Vec::new();
    ops.push(Operation::SetVolume { percent: CHIME_VOLUME });
    if 1 <= hour12 && hour12 <= 12 {
        ops.push(Operation::PlayAudio { hour12 });
    }
    assert(ops@ =~= chime(hour12));
    ops
}

/// A step that fails ends its operation: whatever the later steps would
/// have come to, none of them is run. When the copy of a frame fails, no
/// refresh is run.
pub proof fn lemma_failure_ends_operation(
    operation: Operation,
    position: int,
    outcomes: Seq<bool>,
)
    requires
        0 <= position < operation.steps().len(),
        outcomes.len() > 0,
        !outcomes[0],
    ensures
        operation.after_step(position, false) == Turn::Failed,
        operation.run_from(position, outcomes) == seq![operation.steps()[position]],
        operation is Deliver ==> operation.run_from(0, outcomes) == seq![
            RemoteOp::Copy(Payload::Frame),
        ],
{
    assert(operation.run_from(position, outcomes) =~= seq![operation.steps()[position]]);
}

/// Where every step succeeds, the steps of the operation are run in order,
/// all of them, and the operation ends as done after the last.
pub proof fn lemma_success_runs_all(operation: Operation, outcomes: Seq<bool>)
    requires
        outcomes.len() >= operation.steps().len(),
        forall|i: int| 0 <= i < outcomes.len() ==> outcomes[i],
    ensures
        operation.run_from(0, outcomes) == operation.steps(),
        operation.after_step(operation.steps().len() - 1, true) == Turn::Done,
{
    reveal_with_fuel(Operation::run_from, 3);
    let rest = outcomes.drop_first();
    if operation.steps().len() == 2 {
        assert(rest[0] == outcomes[1]);
        assert(operation.run_from(1, rest) =~= seq![operation.steps()[1]]);
    }
    assert(operation.run_from(0, outcomes) =~= operation.steps());
}

} // verus!
