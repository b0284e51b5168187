use eink_clock::link::{
    setup_if_down, try_recover, LinkJob, LinkOp, LinkOutcome, LinkReply, LinkStep, Plan, Task,
};
use eink_clock::usb::UsbId;

const KINDLE: UsbId = UsbId { vendor: 0x0525, product: 0xa4a2 };
const HUB: UsbId = UsbId { vendor: 0x1d6b, product: 0x0002 };

/// A link that answers as a kernel and a bus would.
#[derive(Clone, Debug, PartialEq)]
struct FakeLink {
    interface: Option<u32>,
    address: bool,
    up: bool,
    bus: Option<Vec<UsbId>>,
    resets: Vec<usize>,
    asked: Vec<LinkOp>,
}

fn link(interface: Option<u32>, address: bool, up: bool) -> FakeLink {
    FakeLink { interface, address, up, bus: Some(vec![HUB, KINDLE]), resets: vec![], asked: vec![] }
}

fn serve(link: &mut FakeLink, op: LinkOp) -> LinkReply {
    link.asked.push(op);
    match op {
        LinkOp::FindAddress => LinkReply::Address(link.address),
        LinkOp::FindInterface => LinkReply::Interface(link.interface),
        LinkOp::AddAddress { index } if link.interface == Some(index) => {
            link.address = true;
            LinkReply::Done
        }
        LinkOp::RemoveAddress if link.address => {
            link.address = false;
            LinkReply::Done
        }
        LinkOp::SetUp { index } if link.interface == Some(index) => {
            link.up = true;
            LinkReply::Done
        }
        LinkOp::SetDown { index } if link.interface == Some(index) => {
            link.up = false;
            LinkReply::Done
        }
        LinkOp::ListDevices => match &link.bus {
            Some(devices) => LinkReply::Devices(devices.clone()),
            None => LinkReply::Failed,
        },
        LinkOp::ResetDevice { position } => {
            link.resets.push(position);
            LinkReply::Done
        }
        _ => LinkReply::Failed,
    }
}

fn run(link: &mut FakeLink, start: (LinkJob, LinkOp)) -> LinkOutcome {
    let (mut job, mut op) = start;
    for _ in 0..100 {
        let reply = serve(link, op);
        let (next, step) = job.advance(&reply);
        job = next;
        match step {
            LinkStep::Ask(next_op) => op = next_op,
            LinkStep::Finished(outcome) => return outcome,
        }
    }
    panic!("the job did not end");
}

/// Feeds a job the same answer again and again and counts the answers
/// that it takes before it ends.
fn answers_taken(start: (LinkJob, LinkOp), reply: LinkReply) -> usize {
    let (mut job, _) = start;
    for taken in 1..=100 {
        let (next, step) = job.advance(&reply);
        job = next;
        if let LinkStep::Finished(_) = step {
            return taken;
        }
    }
    panic!("the job did not end");
}

#[test]
fn ensure_up_assigns_the_address_and_brings_the_link_up() {
    let mut l = link(Some(3), false, false);
    assert_eq!(run(&mut l, setup_if_down()), LinkOutcome::Ready);
    assert!(l.address && l.up);
    assert_eq!(
        l.asked,
        vec![
            LinkOp::FindAddress,
            LinkOp::FindInterface,
            LinkOp::AddAddress { index: 3 },
            LinkOp::FindInterface,
            LinkOp::SetUp { index: 3 },
        ]
    );
}

#[test]
fn ensure_up_leaves_an_assigned_address_alone() {
    let mut l = link(Some(3), true, false);
    assert_eq!(run(&mut l, setup_if_down()), LinkOutcome::Ready);
    assert!(l.address && l.up);
    assert_eq!(
        l.asked,
        vec![LinkOp::FindAddress, LinkOp::FindInterface, LinkOp::SetUp { index: 3 }]
    );
}

#[test]
fn ensure_up_twice_is_ensure_up_once() {
    for interface in [None, Some(0), Some(7)] {
        for address in [false, true] {
            for up in [false, true] {
                let mut once = link(interface, address, up);
                let first = run(&mut once, setup_if_down());
                let mut twice = once.clone();
                let second = run(&mut twice, setup_if_down());
                assert_eq!(first, second);
                assert_eq!(
                    (once.interface, once.address, once.up),
                    (twice.interface, twice.address, twice.up)
                );
                if interface.is_some() {
                    assert_eq!(first, LinkOutcome::Ready);
                    assert!(once.address && once.up);
                } else {
                    assert_eq!(first, LinkOutcome::InterfaceMissing);
                    assert_eq!((once.address, once.up), (address, up));
                }
            }
        }
    }
}

#[test]
fn ensure_up_changes_nothing_on_a_link_in_shape() {
    let mut l = link(Some(2), true, true);
    assert_eq!(run(&mut l, setup_if_down()), LinkOutcome::Ready);
    assert_eq!((l.interface, l.address, l.up), (Some(2), true, true));
    assert!(!l.asked.iter().any(|op| matches!(op, LinkOp::AddAddress { .. })));
}

#[test]
fn ensure_up_reports_a_missing_interface() {
    let mut l = link(None, false, false);
    assert_eq!(run(&mut l, setup_if_down()), LinkOutcome::InterfaceMissing);
    assert_eq!(l.asked, vec![LinkOp::FindAddress, LinkOp::FindInterface]);
    let mut l = link(None, true, false);
    assert_eq!(run(&mut l, setup_if_down()), LinkOutcome::InterfaceMissing);
    assert_eq!(l.asked, vec![LinkOp::FindAddress, LinkOp::FindInterface]);
}

#[test]
fn ensure_up_reports_a_request_that_failed() {
    let (job, op) = setup_if_down();
    assert_eq!(op, LinkOp::FindAddress);
    let (job, step) = job.advance(&LinkReply::Failed);
    assert_eq!(step, LinkStep::Finished(LinkOutcome::Failed));
    assert!(job.done);
    let (_, again) = job.advance(&LinkReply::Address(false));
    assert_eq!(again, LinkStep::Finished(LinkOutcome::Failed));
}

#[test]
fn ensure_up_takes_an_answer_of_the_wrong_kind_as_failure() {
    let (job, _) = setup_if_down();
    let (_, step) = job.advance(&LinkReply::Interface(Some(1)));
    assert_eq!(step, LinkStep::Finished(LinkOutcome::Failed));
    let (job, _) = setup_if_down();
    let (_, step) = job.advance(&LinkReply::Done);
    assert_eq!(step, LinkStep::Finished(LinkOutcome::Failed));
}

#[test]
fn recover_bounces_then_resets() {
    let mut l = link(Some(5), true, true);
    assert_eq!(run(&mut l, try_recover(KINDLE)), LinkOutcome::Ready);
    assert_eq!(
        l.asked,
        vec![
            LinkOp::FindAddress,
            LinkOp::RemoveAddress,
            LinkOp::FindInterface,
            LinkOp::SetDown { index: 5 },
            LinkOp::FindAddress,
            LinkOp::FindInterface,
            LinkOp::AddAddress { index: 5 },
            LinkOp::FindInterface,
            LinkOp::SetUp { index: 5 },
            LinkOp::ListDevices,
            LinkOp::ResetDevice { position: 1 },
        ]
    );
    assert!(l.address && l.up);
    assert_eq!(l.resets, vec![1]);
}

#[test]
fn recover_without_an_address_skips_its_removal() {
    let mut l = link(Some(5), false, false);
    assert_eq!(run(&mut l, try_recover(KINDLE)), LinkOutcome::Ready);
    assert_eq!(l.asked[0], LinkOp::FindAddress);
    assert_eq!(l.asked[1], LinkOp::FindInterface);
    assert!(!l.asked.contains(&LinkOp::RemoveAddress));
    assert!(l.address && l.up);
}

#[test]
fn recover_goes_on_without_a_bus() {
    let mut l = link(Some(5), true, true);
    l.bus = None;
    assert_eq!(run(&mut l, try_recover(KINDLE)), LinkOutcome::Ready);
    assert_eq!(l.asked.last(), Some(&LinkOp::ListDevices));
    assert!(l.resets.is_empty());
}

#[test]
fn recover_goes_on_without_the_device_on_the_bus() {
    let mut l = link(Some(5), true, true);
    l.bus = Some(vec![HUB, HUB]);
    assert_eq!(run(&mut l, try_recover(KINDLE)), LinkOutcome::Ready);
    assert_eq!(l.asked.last(), Some(&LinkOp::ListDevices));
    assert!(l.resets.is_empty());
}

#[test]
fn recover_still_resets_after_the_bounce_failed() {
    let mut l = link(None, true, true);
    assert_eq!(run(&mut l, try_recover(KINDLE)), LinkOutcome::InterfaceMissing);
    assert_eq!(
        l.asked,
        vec![
            LinkOp::FindAddress,
            LinkOp::RemoveAddress,
            LinkOp::FindInterface,
            LinkOp::ListDevices,
            LinkOp::ResetDevice { position: 1 },
        ]
    );
    assert_eq!(l.resets, vec![1]);
}

#[test]
fn recover_ends_whatever_is_answered() {
    let replies = vec![
        LinkReply::Failed,
        LinkReply::Done,
        LinkReply::Address(true),
        LinkReply::Address(false),
        LinkReply::Interface(None),
        LinkReply::Interface(Some(1)),
        LinkReply::Devices(vec![KINDLE]),
        LinkReply::Devices(vec![]),
    ];
    for reply in replies {
        assert!(answers_taken(try_recover(KINDLE), reply.clone()) <= 11);
        assert!(answers_taken(setup_if_down(), reply) <= 5);
    }
}

#[test]
fn recover_takes_eleven_answers_at_most_on_any_link() {
    for interface in [None, Some(1)] {
        for address in [false, true] {
            for up in [false, true] {
                let mut l = link(interface, address, up);
                run(&mut l, try_recover(KINDLE));
                assert!(l.asked.len() <= 11);
                let mut l = link(interface, address, up);
                run(&mut l, setup_if_down());
                assert!(l.asked.len() <= 5);
            }
        }
    }
}

#[test]
fn plans_have_their_ladders() {
    assert_eq!(Plan::EnsureUp.task(0), Some(Task::AssignAddress));
    assert_eq!(Plan::EnsureUp.task(1), Some(Task::LinkUp));
    assert_eq!(Plan::EnsureUp.task(2), None);
    let recover = Plan::Recover { device: KINDLE };
    assert_eq!(recover.task(0), Some(Task::DropAddress));
    assert_eq!(recover.task(1), Some(Task::LinkDown));
    assert_eq!(recover.task(2), Some(Task::AssignAddress));
    assert_eq!(recover.task(3), Some(Task::LinkUp));
    assert_eq!(recover.task(4), Some(Task::ResetDevice));
    assert_eq!(recover.task(5), None);
}

#[test]
fn a_fresh_job_asks_for_the_address() {
    let (job, op) = LinkJob::start(Plan::EnsureUp);
    assert_eq!(op, LinkOp::FindAddress);
    assert_eq!((job.rung, job.done, job.verdict), (0, false, LinkOutcome::Ready));
    let (job, op) = try_recover(KINDLE);
    assert_eq!(op, LinkOp::FindAddress);
    assert_eq!(job.plan, Plan::Recover { device: KINDLE });
}
