//! Keeping the network link to the device in shape.
//!
//! Two procedures work on the link. `setup_if_down` makes sure that the host
//! address is assigned and the interface is up. `try_recover` is the ladder
//! that is climbed once when the device cannot be reached: it takes the
//! address away, cycles the interface, and at last resets the device on the
//! bus. Either procedure is a `LinkJob`: it names one request at a time, is
//! told what came of it, and names the next one or finishes.

use vstd::prelude::*;
use crate::usb::{UsbId, first_match, get_kindle};

verus! {

/// The procedure that a job follows.
#[derive(Clone, Copy, Debug, PartialEq, Eq, Structural)]
pub enum Plan {
    /// Assign the address if it is missing, then bring the interface up.
    EnsureUp,
    /// Bounce address and interface, then reset `device` on the bus.
    Recover { device: UsbId },
}

/// One rung of a procedure.
#[derive(Clone, Copy, Debug, PartialEq, Eq, Structural)]
pub enum Task {
    DropAddress,
    LinkDown,
    AssignAddress,
    LinkUp,
    ResetDevice,
}

/// The kind of answer that a job is waiting for.
#[derive(Clone, Copy, Debug, PartialEq, Eq, Structural)]
pub enum Pending {
    Address,
    Interface,
    Change,
    Devices,
    Reset,
}

/// How a procedure ended.
#[derive(Clone, Copy, Debug, PartialEq, Eq, Structural)]
pub enum LinkOutcome {
    /// Every request of the procedure went through.
    Ready,
    /// No interface of the configured name exists.
    InterfaceMissing,
    /// A request was refused, or its answer was none that fits it.
    Failed,
}

/// A request to whoever manages links, addresses and the bus.
#[derive(Clone, Copy, Debug, PartialEq, Eq, Structural)]
pub enum LinkOp {
    /// Is the host address assigned?
    FindAddress,
    /// Which index has the interface of the configured name?
    FindInterface,
    /// Assign the host address to the interface of that index.
    AddAddress { index: u32 },
    /// Take away the address that `FindAddress` found.
    RemoveAddress,
    SetUp { index: u32 },
    SetDown { index: u32 },
    /// Enumerate the bus.
    ListDevices,
    /// Reset the device at that position of the enumeration.
    ResetDevice { position: usize },
}

/// What came of a request.
#[derive(Clone, Debug, PartialEq, Eq)]
pub enum LinkReply {
    Address(bool),
    Interface(Option<u32>),
    /// A change was made.
    Done,
    Devices(Vec<UsbId>),
    Failed,
}

/// What a job wants next.
#[derive(Clone, Copy, Debug, PartialEq, Eq, Structural)]
pub enum LinkStep {
    Ask(LinkOp),
    Finished(LinkOutcome),
}

/// A procedure under way.
#[derive(Clone, Copy, Debug, PartialEq, Eq, Structural)]
pub struct LinkJob {
    pub plan: Plan,
    /// Position on the plan's ladder of the task at work.
    pub rung: usize,
    pub pending: Pending,
    /// The outcome as far as it is decided.
    pub verdict: LinkOutcome,
    pub done: bool,
}

impl Task {
    /// The request that opens the task, and the answer it then waits for.
    pub open spec fn opening(self) -> (Pending, LinkOp) {
        match self {
            Task::DropAddress => (Pending::Address, LinkOp::FindAddress),
            Task::LinkDown => (Pending::Interface, LinkOp::FindInterface),
            Task::AssignAddress => (Pending::Address, LinkOp::FindAddress),
            Task::LinkUp => (Pending::Interface, LinkOp::FindInterface),
            Task::ResetDevice => (Pending::Devices, LinkOp::ListDevices),
        }
    }

    /// The most requests that the task can make.
    pub open spec fn cost(self) -> nat {
        match self {
            Task::AssignAddress => 3,
            _ => 2,
        }
    }

    /// The most requests that the task can still make once the pending
    /// answer is in.
    pub open spec fn owed(self, pending: Pending) -> nat {
        match (self, pending) {
            (Task::DropAddress, Pending::Address) => 1,
            (Task::LinkDown, Pending::Interface) => 1,
            (Task::AssignAddress, Pending::Address) => 2,
            (Task::AssignAddress, Pending::Interface) => 1,
            (Task::LinkUp, Pending::Interface) => 1,
            (Task::ResetDevice, Pending::Devices) => 1,
            _ => 0,
        }
    }

    fn open(self) -> (r: (Pending, LinkOp))
        ensures
            r == self.opening(),
    {
        match self {
            Task::DropAddress => (Pending::Address, LinkOp::FindAddress),
            Task::LinkDown => (Pending::Interface, LinkOp::FindInterface),
            Task::AssignAddress => (Pending::Address, LinkOp::FindAddress),
            Task::LinkUp => (Pending::Interface, LinkOp::FindInterface),
            Task::ResetDevice => (Pending::Devices, LinkOp::ListDevices),
        }
    }
}

impl Plan {
    /// The tasks of the procedure, in the order in which they are tried.
    pub open spec fn ladder(self) -> Seq<Task> {
        match self {
            Plan::EnsureUp => seq![Task::AssignAddress, Task::LinkUp],
            Plan::Recover { .. } => seq![
                Task::DropAddress,
                Task::LinkDown,
                Task::AssignAddress,
                Task::LinkUp,
                Task::ResetDevice,
            ],
        }
    }

    /// The rung that is still climbed after an earlier one has failed, if
    /// the procedure has one.
    pub open spec fn last_resort(self) -> Option<usize> {
        match self {
            Plan::EnsureUp => None,
            Plan::Recover { .. } => Some(4usize),
        }
    }

    /// The task on the given rung, if the ladder reaches that far.
    pub fn task(self, rung: usize) -> (r: Option<Task>)
        ensures
            r == if rung < self.ladder().len() {
                Some(self.ladder()[rung as int])
            } else {
                None
            },
    {
        match self {
            Plan::EnsureUp => match rung {
                0 => Some(Task::AssignAddress),
                1 => Some(Task::LinkUp),
                _ => None,
            },
            Plan::Recover { .. } => match rung {
                0 => Some(Task::DropAddress),
                1 => Some(Task::LinkDown),
                2 => Some(Task::AssignAddress),
                3 => Some(Task::LinkUp),
                4 => Some(Task::ResetDevice),
                _ => None,
            },
        }
    }

    fn resort(self) -> (r: Option<usize>)
        ensures
            r == self.last_resort(),
    {
        match self {
            Plan::EnsureUp => None,
            Plan::Recover { .. } => Some(4),
        }
    }
}

/// The most requests that the tasks from `rung` on can make together.
pub open spec fn cost_from(ladder: Seq<Task>, rung: int) -> nat
    decreases ladder.len() - rung,
{
    if rung < 0 || rung >= ladder.len() {
        0
    } else {
        ladder[rung].cost() + cost_from(ladder, rung + 1)
    }
}

impl LinkJob {
    /// The job as it stands when it takes up the task on `rung`, and the
    /// request that the task opens with; past the last rung the job is done.
    pub open spec fn entered(self, rung: usize) -> (LinkJob, LinkStep) {
        if rung < self.plan.ladder().len() {
            let task = self.plan.ladder()[rung as int];
            (
                LinkJob { rung, pending: task.opening().0, ..self },
                LinkStep::Ask(task.opening().1),
            )
        } else {
            (LinkJob { rung, done: true, ..self }, LinkStep::Finished(self.verdict))
        }
    }

    /// The job after a request of the task at work has gone wrong in the way
    /// that `outcome` names: it goes on with the plan's last resort if that
    /// still lies ahead, and ends otherwise.
    pub open spec fn failed(self, outcome: LinkOutcome) -> (LinkJob, LinkStep) {
        let marked = LinkJob { verdict: outcome, ..self };
        match self.plan.last_resort() {
            Some(rung) if self.rung < rung => marked.entered(rung),
            _ => (LinkJob { done: true, ..marked }, LinkStep::Finished(outcome)),
        }
    }

    /// The job after `reply` has come in for its pending request, and what
    /// it wants next.
    pub open spec fn next(self, reply: LinkReply) -> (LinkJob, LinkStep) {
        if self.done || self.rung >= self.plan.ladder().len() {
            (LinkJob { done: true, ..self }, LinkStep::Finished(self.verdict))
        } else {
            let onward = if self.rung < usize::MAX {
                self.entered((self.rung + 1) as usize)
            } else {
                self.failed(LinkOutcome::Failed)
            };
            match self.plan.ladder()[self.rung as int] {
                Task::DropAddress => match (self.pending, reply) {
                    (Pending::Address, LinkReply::Address(true)) => (
                        LinkJob { pending: Pending::Change, ..self },
                        LinkStep::Ask(LinkOp::RemoveAddress),
                    ),
                    (Pending::Address, LinkReply::Address(false)) => onward,
                    (Pending::Change, LinkReply::Done) => onward,
                    _ => self.failed(LinkOutcome::Failed),
                },
                Task::LinkDown => match (self.pending, reply) {
                    (Pending::Interface, LinkReply::Interface(None)) => self.failed(
                        LinkOutcome::InterfaceMissing,
                    ),
                    (Pending::Interface, LinkReply::Interface(Some(index))) => (
                        LinkJob { pending: Pending::Change, ..self },
                        LinkStep::Ask(LinkOp::SetDown { index }),
                    ),
                    (Pending::Change, LinkReply::Done) => onward,
                    _ => self.failed(LinkOutcome::Failed),
                },
                Task::AssignAddress => match (self.pending, reply) {
                    (Pending::Address, LinkReply::Address(true)) => onward,
                    (Pending::Address, LinkReply::Address(false)) => (
                        LinkJob { pending: Pending::Interface, ..self },
                        LinkStep::Ask(LinkOp::FindInterface),
                    ),
                    (Pending::Interface, LinkReply::Interface(None)) => self.failed(
                        LinkOutcome::InterfaceMissing,
                    ),
                    (Pending::Interface, LinkReply::Interface(Some(index))) => (
                        LinkJob { pending: Pending::Change, ..self },
                        LinkStep::Ask(LinkOp::AddAddress { index }),
                    ),
                    (Pending::Change, LinkReply::Done) => onward,
                    _ => self.failed(LinkOutcome::Failed),
                },
                Task::LinkUp => match (self.pending, reply) {
                    (Pending::Interface, LinkReply::Interface(None)) => self.failed(
                        LinkOutcome::InterfaceMissing,
                    ),
                    (Pending::Interface, LinkReply::Interface(Some(index))) => (
                        LinkJob { pending: Pending::Change, ..self },
                        LinkStep::Ask(LinkOp::SetUp { index }),
                    ),
                    (Pending::Change, LinkReply::Done) => onward,
                    _ => self.failed(LinkOutcome::Failed),
                },
                Task::ResetDevice => match (self.pending, reply, self.plan) {
                    (Pending::Devices, LinkReply::Devices(devices), Plan::Recover { device }) => {
                        match first_match(devices@, device, 0) {
                            Some(position) => (
                                LinkJob { pending: Pending::Reset, ..self },
                                LinkStep::Ask(LinkOp::ResetDevice { position: position as usize }),
                            ),
                            None => onward,
                        }
                    },
                    _ => onward,
                },
            }
        }
    }

    /// Whether the job has come to its end.
    pub open spec fn finished(self) -> bool {
        self.done || self.rung >= self.plan.ladder().len()
    }

    /// The job after the answers in `replies` have come in, one by one.
    pub open spec fn after(self, replies: Seq<LinkReply>) -> LinkJob
        decreases replies.len(),
    {
        if replies.len() == 0 {
            self
        } else {
            self.next(replies[0]).0.after(replies.drop_first())
        }
    }

    /// An upper bound on the answers that the job still takes before it
    /// is done.
    pub open spec fn rank(self) -> nat {
        if self.finished() {
            0
        } else {
            1 + self.plan.ladder()[self.rung as int].owed(self.pending) + cost_from(
                self.plan.ladder(),
                self.rung + 1,
            )
        }
    }

    /// A fresh job for `plan`, and its first request.
    pub open spec fn started(plan: Plan) -> (LinkJob, LinkStep) {
        (LinkJob {
            plan,
            rung: 0,
            pending: Pending::Address,
            verdict: LinkOutcome::Ready,
            done: false,
        }).entered(0)
    }

    fn enter(self, rung: usize) -> (r: (LinkJob, LinkStep))
        ensures
            r == self.entered(rung),
    {
        match self.plan.task(rung) {
            Some(task) => {
                let (pending, op): (Pending, LinkOp) = task.open();
                (LinkJob { rung, pending, ..self }, LinkStep::Ask(op))
            },
            None => (LinkJob { rung, done: true, ..self }, LinkStep::Finished(self.verdict)),
        }
    }

    fn fail(self, outcome: LinkOutcome) -> (r: (LinkJob, LinkStep))
        ensures
            r == self.failed(outcome),
    {
        let marked = LinkJob { verdict: outcome, ..self };
        match self.plan.resort() {
            Some(rung) => {
                if self.rung < rung {
                    marked.enter(rung)
                } else {
                    (LinkJob { done: true, ..marked }, LinkStep::Finished(outcome))
                }
            },
            None => (LinkJob { done: true, ..marked }, LinkStep::Finished(outcome)),
        }
    }

    fn go_on(self) -> (r: (LinkJob, LinkStep))
        ensures
            r == if self.rung < usize::MAX {
                self.entered((self.rung + 1) as usize)
            } else {
                self.failed(LinkOutcome::Failed)
            },
    {
        if self.rung < usize::MAX {
            self.enter(self.rung + 1)
        } else {
            self.fail(LinkOutcome::Failed)
        }
    }

    /// Starts the procedure `plan`.
    pub fn start(plan: Plan) -> (r: (LinkJob, LinkOp))
        ensures
            (r.0, LinkStep::Ask(r.1)) == LinkJob::started(plan),
            !r.0.done,
    {
        let fresh = LinkJob {
            plan,
            rung: 0,
            pending: Pending::Address,
            verdict: LinkOutcome::Ready,
            done: false,
        };
        match fresh.enter(0) {
            (job, LinkStep::Ask(op)) => (job, op),
            (job, LinkStep::Finished(_)) => (job, LinkOp::FindAddress),
        }
    }

    /// Takes the answer to the pending request and says what comes next.
    #[verifier::rlimit(40)]
    pub fn advance(self, reply: &LinkReply) -> (r: (LinkJob, LinkStep))
        ensures
            r == self.next(*reply),
    {
        if self.done {
            return (LinkJob { done: true, ..self }, LinkStep::Finished(self.verdict));
        }
        let task: Task = match self.plan.task(self.rung) {
            Some(task) => task,
            None => {
                return (LinkJob { done: true, ..self }, LinkStep::Finished(self.verdict));
            },
        };
        match task {
            Task::DropAddress => match (self.pending, reply) {
                (Pending::Address, LinkReply::Address(true)) => (
                    LinkJob { pending: Pending::Change, ..self },
                    LinkStep::Ask(LinkOp::RemoveAddress),
                ),
                (Pending::Address, LinkReply::Address(false)) => self.go_on(),
                (Pending::Change, LinkReply::Done) => self.go_on(),
                _ => self.fail(LinkOutcome::Failed),
            },
            Task::LinkDown => match (self.pending, reply) {
                (Pending::Interface, LinkReply::Interface(None)) => self.fail(
                    LinkOutcome::InterfaceMissing,
                ),
                (Pending::Interface, LinkReply::Interface(Some(index))) => (
                    LinkJob { pending: Pending::Change, ..self },
                    LinkStep::Ask(LinkOp::SetDown { index: *index }),
                ),
                (Pending::Change, LinkReply::Done) => self.go_on(),
                _ => self.fail(LinkOutcome::Failed),
            },
            Task::AssignAddress => match (self.pending, reply) {
                (Pending::Address, LinkReply::Address(true)) => self.go_on(),
                (Pending::Address, LinkReply::Address(false)) => (
                    LinkJob { pending: Pending::Interface, ..self },
                    LinkStep::Ask(LinkOp::FindInterface),
                ),
                (Pending::Interface, LinkReply::Interface(None)) => self.fail(
                    LinkOutcome::InterfaceMissing,
                ),
                (Pending::Interface, LinkReply::Interface(Some(index))) => (
                    LinkJob { pending: Pending::Change, ..self },
                    LinkStep::Ask(LinkOp::AddAddress { index: *index }),
                ),
                (Pending::Change, LinkReply::Done) => self.go_on(),
                _ => self.fail(LinkOutcome::Failed),
            },
            Task::LinkUp => match (self.pending, reply) {
                (Pending::Interface, LinkReply::Interface(None)) => self.fail(
                    LinkOutcome::InterfaceMissing,
                ),
                (Pending::Interface, LinkReply::Interface(Some(index))) => (
                    LinkJob { pending: Pending::Change, ..self },
                    LinkStep::Ask(LinkOp::SetUp { index: *index }),
                ),
                (Pending::Change, LinkReply::Done) => self.go_on(),
                _ => self.fail(LinkOutcome::Failed),
            },
            Task::ResetDevice => match (self.pending, reply, self.plan) {
                (Pending::Devices, LinkReply::Devices(devices), Plan::Recover { device }) => {
                    match get_kindle(devices, device) {
                        Some(position) => (
                            LinkJob { pending: Pending::Reset, ..self },
                            LinkStep::Ask(LinkOp::ResetDevice { position }),
                        ),
                        None => self.go_on(),
                    }
                },
                _ => self.go_on(),
            },
        }
    }
}

/// Starts the procedure that assigns the host address to the interface
/// unless it is there already, and then brings the interface up.
pub fn setup_if_down() -> (r: (LinkJob, LinkOp))
    ensures
        (r.0, LinkStep::Ask(r.1)) == LinkJob::started(Plan::EnsureUp),
{
    LinkJob::start(Plan::EnsureUp)
}

/// Starts the recovery ladder: address and interface are bounced, then
/// `device` is reset on the bus if it can be found there.
pub fn try_recover(device: UsbId) -> (r: (LinkJob, LinkOp))
    ensures
        (r.0, LinkStep::Ask(r.1)) == LinkJob::started(Plan::Recover { device }),
{
    LinkJob::start(Plan::Recover { device })
}

/// The most answers that a procedure takes, whatever they are.
pub open spec fn step_bound(plan: Plan) -> nat {
    match plan {
        Plan::EnsureUp => 5,
        Plan::Recover { .. } => 11,
    }
}

/// The rungs of each ladder, and what they cost from each rung on.
proof fn lemma_ladder_costs(plan: Plan)
    ensures
        match plan {
            Plan::EnsureUp => {
                &&& plan.ladder().len() == 2
                &&& plan.ladder()[0] == Task::AssignAddress
                &&& plan.ladder()[1] == Task::LinkUp
                &&& cost_from(plan.ladder(), 0) == 5
                &&& cost_from(plan.ladder(), 1) == 2
                &&& cost_from(plan.ladder(), 2) == 0
            },
            Plan::Recover { .. } => {
                &&& plan.ladder().len() == 5
                &&& plan.ladder()[0] == Task::DropAddress
                &&& plan.ladder()[1] == Task::LinkDown
                &&& plan.ladder()[2] == Task::AssignAddress
                &&& plan.ladder()[3] == Task::LinkUp
                &&& plan.ladder()[4] == Task::ResetDevice
                &&& cost_from(plan.ladder(), 0) == 11
                &&& cost_from(plan.ladder(), 1) == 9
                &&& cost_from(plan.ladder(), 2) == 7
                &&& cost_from(plan.ladder(), 3) == 4
                &&& cost_from(plan.ladder(), 4) == 2
                &&& cost_from(plan.ladder(), 5) == 0
            },
        },
{
    reveal_with_fuel(cost_from, 7);
}

/// Every answer brings a job that is not finished strictly closer to its
/// end, and a finished job stays finished.
#[verifier::rlimit(40)]
pub proof fn lemma_advance_descends(job: LinkJob, reply: LinkReply)
    ensures
        !job.finished() ==> job.next(reply).0.rank() < job.rank(),
        job.finished() ==> job.next(reply).0.finished(),
        job.next(reply).1 is Finished <==> job.next(reply).0.finished(),
        job.next(reply).0.plan == job.plan,
{
    lemma_ladder_costs(job.plan);
    if !job.finished() {
        assert(job.rung == 0 || job.rung == 1 || job.rung == 2 || job.rung == 3 || job.rung == 4);
    }
}

/// A fresh job is not finished, and its distance from the end is the bound
/// of its plan.
pub proof fn lemma_started_rank(plan: Plan)
    ensures
        LinkJob::started(plan).0.rank() == step_bound(plan),
        LinkJob::started(plan).1 is Ask,
        LinkJob::started(plan).0.plan == plan,
{
    lemma_ladder_costs(plan);
}

/// A job ends within as many answers as its rank says, whatever the answers
/// are.
pub proof fn lemma_job_terminates(job: LinkJob, replies: Seq<LinkReply>)
    requires
        replies.len() >= job.rank(),
    ensures
        job.after(replies).finished(),
    decreases replies.len(),
{
    if replies.len() > 0 {
        lemma_advance_descends(job, replies[0]);
        lemma_job_terminates(job.next(replies[0]).0, replies.drop_first());
    }
}

/// The recovery ladder is bounded: after eleven answers at most, whatever
/// they are, it has come to its end; making sure that the link is up takes
/// five at most.
pub proof fn lemma_ladder_is_bounded(plan: Plan, replies: Seq<LinkReply>)
    requires
        replies.len() >= step_bound(plan),
    ensures
        LinkJob::started(plan).0.after(replies).finished(),
{
    lemma_started_rank(plan);
    lemma_job_terminates(LinkJob::started(plan).0, replies);
}

/// What the procedures assume of the link that they work on: whether the
/// interface exists, and under which index; whether the host address is
/// assigned; whether the interface is up.
pub struct LinkModel {
    pub interface: Option<u32>,
    pub address: bool,
    pub up: bool,
}

impl LinkModel {
    /// The link after a request, and the answer to it, where nothing goes
    /// wrong that the state of the link does not explain. A change to an
    /// interface that does not exist is refused, as is taking away an address
    /// that is not there; no bus is modelled.
    pub open spec fn serve(self, op: LinkOp) -> (LinkModel, LinkReply) {
        match op {
            LinkOp::FindAddress => (self, LinkReply::Address(self.address)),
            LinkOp::FindInterface => (self, LinkReply::Interface(self.interface)),
            LinkOp::AddAddress { index } => if self.interface == Some(index) {
                (LinkModel { address: true, ..self }, LinkReply::Done)
            } else {
                (self, LinkReply::Failed)
            },
            LinkOp::RemoveAddress => if self.address {
                (LinkModel { address: false, ..self }, LinkReply::Done)
            } else {
                (self, LinkReply::Failed)
            },
            LinkOp::SetUp { index } => if self.interface == Some(index) {
                (LinkModel { up: true, ..self }, LinkReply::Done)
            } else {
                (self, LinkReply::Failed)
            },
            LinkOp::SetDown { index } => if self.interface == Some(index) {
                (LinkModel { up: false, ..self }, LinkReply::Done)
            } else {
                (self, LinkReply::Failed)
            },
            LinkOp::ListDevices => (self, LinkReply::Failed),
            LinkOp::ResetDevice { .. } => (self, LinkReply::Failed),
        }
    }

    /// The outcome of a job, and the link that it leaves, when each of its
    /// requests is served by this link; `fuel` bounds the requests.
    pub open spec fn settle(self, job: LinkJob, step: LinkStep, fuel: nat) -> (
        LinkOutcome,
        LinkModel,
    )
        decreases fuel,
    {
        match step {
            LinkStep::Finished(outcome) => (outcome, self),
            LinkStep::Ask(op) => if fuel == 0 {
                (LinkOutcome::Failed, self)
            } else {
                let served = self.serve(op);
                let moved = job.next(served.1);
                served.0.settle(moved.0, moved.1, (fuel - 1) as nat)
            },
        }
    }

    /// The outcome of the whole procedure `plan` on this link, and the link
    /// that it leaves.
    pub open spec fn run(self, plan: Plan) -> (LinkOutcome, LinkModel) {
        self.settle(LinkJob::started(plan).0, LinkJob::started(plan).1, step_bound(plan))
    }
}

/// Making sure that the link is up a second time changes nothing and ends as
/// the first time did. Where the interface exists, the procedure ends with
/// the address assigned and the interface up; where it does not, that is
/// reported and the link is left as it was. On a link that is in shape
/// already the procedure changes nothing.
#[verifier::rlimit(40)]
pub proof fn lemma_ensure_up_idempotent(link: LinkModel)
    ensures
        link.run(Plan::EnsureUp).1.run(Plan::EnsureUp) == link.run(Plan::EnsureUp),
        link.interface is Some ==> link.run(Plan::EnsureUp) == (
            LinkOutcome::Ready,
            LinkModel { address: true, up: true, ..link },
        ),
        link.interface is None ==> link.run(Plan::EnsureUp) == (
            LinkOutcome::InterfaceMissing,
            link,
        ),
        link.interface is Some && link.address && link.up ==> link.run(Plan::EnsureUp).1 == link,
{
    reveal_with_fuel(LinkModel::settle, 6);
    let once = link.run(Plan::EnsureUp);
    if link.interface is Some {
        assert(once == (LinkOutcome::Ready, LinkModel { address: true, up: true, ..link }));
    } else {
        assert(once == (LinkOutcome::InterfaceMissing, link));
    }
    assert(once.1.run(Plan::EnsureUp) == once);
}

/// The job of the recovery ladder as it stands when it takes up the task
/// on `rung`, nothing having failed.
spec fn climbing(device: UsbId, rung: usize, pending: Pending) -> LinkJob {
    LinkJob {
        plan: Plan::Recover { device },
        rung,
        pending,
        verdict: LinkOutcome::Ready,
        done: false,
    }
}

/// The second rung of the ladder takes the interface down.
proof fn lemma_rung_down(link: LinkModel, device: UsbId, fuel: nat)
    requires
        link.interface is Some,
        fuel >= 2,
    ensures
        link.settle(climbing(device, 1, Pending::Interface), LinkStep::Ask(LinkOp::FindInterface), fuel)
            == (LinkModel { up: false, ..link }).settle(
            climbing(device, 2, Pending::Address),
            LinkStep::Ask(LinkOp::FindAddress),
            (fuel - 2) as nat,
        ),
{
    reveal_with_fuel(LinkModel::settle, 3);
}

/// The third rung assigns the address where there is none.
proof fn lemma_rung_assign(link: LinkModel, device: UsbId, fuel: nat)
    requires
        link.interface is Some,
        !link.address,
        fuel >= 3,
    ensures
        link.settle(climbing(device, 2, Pending::Address), LinkStep::Ask(LinkOp::FindAddress), fuel)
            == (LinkModel { address: true, ..link }).settle(
            climbing(device, 3, Pending::Interface),
            LinkStep::Ask(LinkOp::FindInterface),
            (fuel - 3) as nat,
        ),
{
    reveal_with_fuel(LinkModel::settle, 4);
}

/// The fourth rung brings the interface up, and the last one finds no bus
/// to look for the device on.
proof fn lemma_rung_up(link: LinkModel, device: UsbId, fuel: nat)
    requires
        link.interface is Some,
        fuel >= 3,
    ensures
        link.settle(climbing(device, 3, Pending::Interface), LinkStep::Ask(LinkOp::FindInterface), fuel)
            == (LinkOutcome::Ready, LinkModel { up: true, ..link }),
{
    reveal_with_fuel(LinkModel::settle, 4);
}

/// The recovery ladder from its second rung on, on a link that has the
/// interface and not the address.
proof fn lemma_recover_tail(link: LinkModel, job: LinkJob, fuel: nat)
    requires
        link.interface is Some,
        !link.address,
        job.plan is Recover,
        job.rung == 1,
        job.pending == Pending::Interface,
        job.verdict == LinkOutcome::Ready,
        !job.done,
        fuel >= 9,
    ensures
        link.settle(job, LinkStep::Ask(LinkOp::FindInterface), fuel) == (
            LinkOutcome::Ready,
            LinkModel { address: true, up: true, ..link },
        ),
{
    let device = job.plan->device;
    assert(job == climbing(device, 1, Pending::Interface));
    let down = LinkModel { up: false, ..link };
    let assigned = LinkModel { address: true, ..down };
    lemma_rung_down(link, device, fuel);
    lemma_rung_assign(down, device, (fuel - 2) as nat);
    lemma_rung_up(assigned, device, (fuel - 5) as nat);
}

/// Where the interface exists, the bounce of the recovery ladder leaves the
/// address assigned and the interface up, whatever the link was like before.
pub proof fn lemma_recover_restores(link: LinkModel, device: UsbId)
    requires
        link.interface is Some,
    ensures
        link.run(Plan::Recover { device }) == (
            LinkOutcome::Ready,
            LinkModel { address: true, up: true, ..link },
        ),
{
    let plan = Plan::Recover { device };
    let start = LinkJob::started(plan);
    let bare = LinkModel { address: false, ..link };
    let asked = start.0.next(LinkReply::Address(link.address));
    reveal_with_fuel(LinkModel::settle, 2);
    if link.address {
        let removed = asked.0.next(LinkReply::Done);
        assert(link.run(plan) == bare.settle(removed.0, removed.1, 9));
        lemma_recover_tail(bare, removed.0, 9);
    } else {
        assert(link.run(plan) == bare.settle(asked.0, asked.1, 10));
        lemma_recover_tail(bare, asked.0, 10);
    }
}

} // verus!
