use hub::action::Action;
use hub::dispatch::{Dispatcher, InFlight, Outcome, Step};
use hub::error::ErrorKind;
use hub::mailbox::{Exchange, Mailbox};
use hub::registry::{Device, Registry};

const KITCHEN: u128 = 0x36bc0fe1b00742809ec6b36c8bc98537;
const BEDROOM: u128 = 0x0584507902e74f44b67902b90775abda;
const NOWHERE: u128 = 0x7e1be1ebf9844e17b0f1049e02a39567;

fn rooms() -> Registry {
    let mut registry = Registry::new();
    assert!(registry.register(Device {
        name: "kitchen".to_string(),
        uuid: KITCHEN,
        ip: "10.0.0.2".to_string(),
        target: 0,
    }));
    assert!(registry.register(Device {
        name: "bedroom".to_string(),
        uuid: BEDROOM,
        ip: "10.0.0.3".to_string(),
        target: 4,
    }));
    registry
}

fn set(device_id: u128, target: usize) -> Exchange {
    Exchange::CommandPending { device_id, action: Action::SetTo { target } }
}

#[test]
fn new_dispatcher_remembers_nothing() {
    let dispatcher = Dispatcher::new();
    assert_eq!(dispatcher.last, None);
    assert_eq!(dispatcher.in_flight, None);
    assert!(!dispatcher.repeats(0, Action::On));
}

#[test]
fn tick_on_an_idle_mailbox_finds_nothing() {
    let registry = rooms();
    let mut mailbox = Mailbox::new();
    let mut dispatcher = Dispatcher::new();
    assert_eq!(dispatcher.tick(&mut mailbox, &registry, false), Step::Nothing);
    assert_eq!(mailbox.peek(), Exchange::Idle);
    assert_eq!(dispatcher, Dispatcher::new());
}

#[test]
fn published_command_goes_out_once_for_every_action() {
    let registry = rooms();
    let mut actions = vec![Action::On, Action::Off];
    for level in 0..8 {
        actions.push(Action::SetTo { target: level });
    }
    for (device_id, address) in [(KITCHEN, "10.0.0.2"), (BEDROOM, "10.0.0.3")] {
        for action in actions.iter().copied() {
            let mut mailbox = Mailbox::new();
            let mut dispatcher = Dispatcher::new();
            mailbox.publish(Exchange::CommandPending { device_id, action });
            let step = dispatcher.tick(&mut mailbox, &registry, false);
            assert_eq!(step, Step::Execute { device_id, address: address.to_string(), action });
            assert_eq!(mailbox.peek(), Exchange::Idle);
            let mut after = rooms();
            assert_eq!(dispatcher.settle(&mut mailbox, &mut after, Outcome::Done), None);
            assert_eq!(mailbox.peek(), Exchange::Idle);
            assert_eq!(dispatcher.tick(&mut mailbox, &after, false), Step::Nothing);
            assert_eq!(mailbox.peek(), Exchange::Idle);
        }
    }
}

#[test]
fn second_command_overwrites_the_first() {
    let registry = rooms();
    let mut mailbox = Mailbox::new();
    let mut dispatcher = Dispatcher::new();
    mailbox.publish(set(KITCHEN, 3));
    mailbox.publish(set(KITCHEN, 5));
    let step = dispatcher.tick(&mut mailbox, &registry, false);
    assert_eq!(
        step,
        Step::Execute {
            device_id: KITCHEN,
            address: "10.0.0.2".to_string(),
            action: Action::SetTo { target: 5 },
        }
    );
    let mut after = rooms();
    assert_eq!(dispatcher.settle(&mut mailbox, &mut after, Outcome::Done), None);
    assert_eq!(dispatcher.tick(&mut mailbox, &after, false), Step::Nothing);
    assert_eq!(dispatcher.last, Some((KITCHEN, Action::SetTo { target: 5 })));
}

#[test]
fn repeated_command_is_dropped() {
    let mut registry = rooms();
    let mut mailbox = Mailbox::new();
    let mut dispatcher = Dispatcher::new();
    mailbox.publish(set(KITCHEN, 3));
    assert!(matches!(dispatcher.tick(&mut mailbox, &registry, false), Step::Execute { .. }));
    assert_eq!(dispatcher.settle(&mut mailbox, &mut registry, Outcome::Done), None);
    assert!(dispatcher.repeats(KITCHEN, Action::SetTo { target: 3 }));
    mailbox.publish(set(KITCHEN, 3));
    assert_eq!(
        dispatcher.tick(&mut mailbox, &registry, false),
        Step::Duplicate { device_id: KITCHEN, action: Action::SetTo { target: 3 } }
    );
    assert_eq!(mailbox.peek(), Exchange::Idle);
    assert_eq!(dispatcher.in_flight, None);
    mailbox.publish(set(BEDROOM, 3));
    assert!(matches!(dispatcher.tick(&mut mailbox, &registry, false), Step::Execute { .. }));
}

#[test]
fn command_for_unknown_device_is_reported() {
    let registry = rooms();
    let mut mailbox = Mailbox::new();
    let mut dispatcher = Dispatcher::new();
    mailbox.publish(set(NOWHERE, 3));
    assert_eq!(
        dispatcher.tick(&mut mailbox, &registry, false),
        Step::Rejected { device_id: NOWHERE, error: ErrorKind::UnknownDevice }
    );
    assert_eq!(mailbox.peek(), Exchange::Idle);
    assert_eq!(dispatcher.in_flight, None);
    assert_eq!(dispatcher.last, Some((NOWHERE, Action::SetTo { target: 3 })));
}

#[test]
fn rejected_command_is_the_one_seen_last() {
    let registry = rooms();
    let mut mailbox = Mailbox::new();
    let mut dispatcher = Dispatcher::new();
    mailbox.publish(set(NOWHERE, 3));
    assert!(matches!(dispatcher.tick(&mut mailbox, &registry, false), Step::Rejected { .. }));
    mailbox.publish(set(NOWHERE, 3));
    assert_eq!(
        dispatcher.tick(&mut mailbox, &registry, false),
        Step::Duplicate { device_id: NOWHERE, action: Action::SetTo { target: 3 } }
    );
    mailbox.publish(set(NOWHERE, 4));
    assert_eq!(
        dispatcher.tick(&mut mailbox, &registry, false),
        Step::Rejected { device_id: NOWHERE, error: ErrorKind::UnknownDevice }
    );
}

#[test]
fn valid_command_goes_out_again_after_a_rejected_one() {
    let mut registry = rooms();
    let mut mailbox = Mailbox::new();
    let mut dispatcher = Dispatcher::new();
    let sent = Step::Execute {
        device_id: KITCHEN,
        address: "10.0.0.2".to_string(),
        action: Action::SetTo { target: 3 },
    };
    mailbox.publish(set(KITCHEN, 3));
    assert_eq!(dispatcher.tick(&mut mailbox, &registry, false), sent);
    assert_eq!(dispatcher.settle(&mut mailbox, &mut registry, Outcome::Done), None);
    mailbox.publish(set(NOWHERE, 3));
    assert_eq!(
        dispatcher.tick(&mut mailbox, &registry, false),
        Step::Rejected { device_id: NOWHERE, error: ErrorKind::UnknownDevice }
    );
    assert_eq!(mailbox.peek(), Exchange::Idle);
    mailbox.publish(set(KITCHEN, 3));
    assert_eq!(dispatcher.tick(&mut mailbox, &registry, false), sent);
    assert_eq!(dispatcher.settle(&mut mailbox, &mut registry, Outcome::Done), None);
    mailbox.publish(set(KITCHEN, 9));
    assert_eq!(
        dispatcher.tick(&mut mailbox, &registry, false),
        Step::Rejected { device_id: KITCHEN, error: ErrorKind::OutOfRange }
    );
    mailbox.publish(set(KITCHEN, 3));
    assert_eq!(dispatcher.tick(&mut mailbox, &registry, false), sent);
}

#[test]
fn command_with_level_out_of_range_is_reported() {
    let registry = rooms();
    let mut mailbox = Mailbox::new();
    let mut dispatcher = Dispatcher::new();
    mailbox.publish(set(KITCHEN, 8));
    assert_eq!(
        dispatcher.tick(&mut mailbox, &registry, false),
        Step::Rejected { device_id: KITCHEN, error: ErrorKind::OutOfRange }
    );
    assert_eq!(mailbox.peek(), Exchange::Idle);
    assert_eq!(dispatcher.in_flight, None);
    assert_eq!(dispatcher.last, Some((KITCHEN, Action::SetTo { target: 8 })));
}

#[test]
fn failed_command_is_reported_and_leaves_the_mailbox_idle() {
    let mut registry = rooms();
    let mut mailbox = Mailbox::new();
    let mut dispatcher = Dispatcher::new();
    mailbox.publish(set(KITCHEN, 2));
    assert!(matches!(dispatcher.tick(&mut mailbox, &registry, false), Step::Execute { .. }));
    assert_eq!(
        dispatcher.settle(&mut mailbox, &mut registry, Outcome::Failed),
        Some(ErrorKind::DeviceUnreachable)
    );
    assert_eq!(mailbox.peek(), Exchange::Idle);
    assert_eq!(dispatcher.in_flight, None);
    assert_eq!(dispatcher.tick(&mut mailbox, &registry, false), Step::Nothing);
}

#[test]
fn inquiry_is_asked_and_answered() {
    let mut registry = rooms();
    let mut mailbox = Mailbox::new();
    let mut dispatcher = Dispatcher::new();
    mailbox.publish(Exchange::InquiryPending { device_id: BEDROOM });
    assert_eq!(
        dispatcher.tick(&mut mailbox, &registry, false),
        Step::Query { device_id: BEDROOM, address: "10.0.0.3".to_string() }
    );
    assert_eq!(mailbox.peek(), Exchange::Idle);
    assert_eq!(dispatcher.in_flight, Some(InFlight::Inquiry { device_id: BEDROOM }));
    assert_eq!(dispatcher.settle(&mut mailbox, &mut registry, Outcome::Level(6)), None);
    assert_eq!(mailbox.peek(), Exchange::InquiryAnswered { level: Ok(6) });
    assert_eq!(registry.device(1).target, 6);
    assert_eq!(registry.device(0).target, 0);
    assert_eq!(dispatcher.in_flight, None);
    assert_eq!(dispatcher.tick(&mut mailbox, &registry, false), Step::Nothing);
    assert_eq!(mailbox.peek(), Exchange::InquiryAnswered { level: Ok(6) });
}

#[test]
fn inquiry_for_unknown_device_is_answered_with_the_error() {
    let registry = rooms();
    let mut mailbox = Mailbox::new();
    let mut dispatcher = Dispatcher::new();
    mailbox.publish(Exchange::InquiryPending { device_id: NOWHERE });
    assert_eq!(
        dispatcher.tick(&mut mailbox, &registry, false),
        Step::Unanswerable { device_id: NOWHERE, error: ErrorKind::UnknownDevice }
    );
    assert_eq!(mailbox.peek(), Exchange::InquiryAnswered { level: Err(ErrorKind::UnknownDevice) });
    assert_eq!(dispatcher.in_flight, None);
}

#[test]
fn failed_inquiry_is_answered_with_the_error() {
    let mut registry = rooms();
    let mut mailbox = Mailbox::new();
    let mut dispatcher = Dispatcher::new();
    mailbox.publish(Exchange::InquiryPending { device_id: KITCHEN });
    assert!(matches!(dispatcher.tick(&mut mailbox, &registry, false), Step::Query { .. }));
    assert_eq!(
        dispatcher.settle(&mut mailbox, &mut registry, Outcome::Failed),
        Some(ErrorKind::DeviceUnreachable)
    );
    assert_eq!(
        mailbox.peek(),
        Exchange::InquiryAnswered { level: Err(ErrorKind::DeviceUnreachable) }
    );
    assert_eq!(registry.device(0).target, 0);
}

#[test]
fn inquiry_without_a_level_counts_as_failed() {
    let mut registry = rooms();
    let mut mailbox = Mailbox::new();
    let mut dispatcher = Dispatcher::new();
    mailbox.publish(Exchange::InquiryPending { device_id: KITCHEN });
    assert!(matches!(dispatcher.tick(&mut mailbox, &registry, false), Step::Query { .. }));
    assert_eq!(
        dispatcher.settle(&mut mailbox, &mut registry, Outcome::Done),
        Some(ErrorKind::DeviceUnreachable)
    );
}

#[test]
fn reported_level_out_of_range_is_not_recorded() {
    let mut registry = rooms();
    let mut mailbox = Mailbox::new();
    let mut dispatcher = Dispatcher::new();
    mailbox.publish(Exchange::InquiryPending { device_id: BEDROOM });
    assert!(matches!(dispatcher.tick(&mut mailbox, &registry, false), Step::Query { .. }));
    assert_eq!(
        dispatcher.settle(&mut mailbox, &mut registry, Outcome::Level(8)),
        Some(ErrorKind::OutOfRange)
    );
    assert_eq!(mailbox.peek(), Exchange::InquiryAnswered { level: Err(ErrorKind::OutOfRange) });
    assert_eq!(registry.device(1).target, 4);
}

#[test]
fn answer_overwrites_what_was_published_meanwhile() {
    let mut registry = rooms();
    let mut mailbox = Mailbox::new();
    let mut dispatcher = Dispatcher::new();
    mailbox.publish(Exchange::InquiryPending { device_id: KITCHEN });
    assert!(matches!(dispatcher.tick(&mut mailbox, &registry, false), Step::Query { .. }));
    mailbox.publish(set(BEDROOM, 1));
    assert_eq!(dispatcher.settle(&mut mailbox, &mut registry, Outcome::Level(2)), None);
    assert_eq!(mailbox.peek(), Exchange::InquiryAnswered { level: Ok(2) });
}

#[test]
fn tick_is_busy_while_work_is_in_flight() {
    let mut registry = rooms();
    let mut mailbox = Mailbox::new();
    let mut dispatcher = Dispatcher::new();
    mailbox.publish(set(KITCHEN, 1));
    assert!(matches!(dispatcher.tick(&mut mailbox, &registry, false), Step::Execute { .. }));
    assert_eq!(dispatcher.in_flight, Some(InFlight::Command { device_id: KITCHEN }));
    mailbox.publish(set(BEDROOM, 2));
    assert_eq!(dispatcher.tick(&mut mailbox, &registry, false), Step::Busy);
    assert_eq!(mailbox.peek(), set(BEDROOM, 2));
    assert_eq!(dispatcher.settle(&mut mailbox, &mut registry, Outcome::Done), None);
    assert_eq!(mailbox.peek(), set(BEDROOM, 2));
    assert_eq!(
        dispatcher.tick(&mut mailbox, &registry, false),
        Step::Execute {
            device_id: BEDROOM,
            address: "10.0.0.3".to_string(),
            action: Action::SetTo { target: 2 },
        }
    );
}

#[test]
fn tick_after_shutdown_touches_nothing() {
    let registry = rooms();
    let mut mailbox = Mailbox::new();
    let mut dispatcher = Dispatcher::new();
    mailbox.publish(set(KITCHEN, 1));
    assert_eq!(dispatcher.tick(&mut mailbox, &registry, true), Step::Stopped);
    assert_eq!(mailbox.peek(), set(KITCHEN, 1));
    assert_eq!(dispatcher, Dispatcher::new());
}

#[test]
fn settle_with_nothing_in_flight_changes_nothing() {
    let mut registry = rooms();
    let mut mailbox = Mailbox::new();
    let mut dispatcher = Dispatcher::new();
    mailbox.publish(set(KITCHEN, 1));
    assert_eq!(dispatcher.settle(&mut mailbox, &mut registry, Outcome::Level(3)), None);
    assert_eq!(dispatcher.settle(&mut mailbox, &mut registry, Outcome::Failed), None);
    assert_eq!(mailbox.peek(), set(KITCHEN, 1));
    assert_eq!(registry.device(0).target, 0);
    assert_eq!(dispatcher, Dispatcher::new());
}

#[test]
fn waiting_answer_is_left_for_the_asking_side() {
    let registry = rooms();
    let mut mailbox = Mailbox::new();
    let mut dispatcher = Dispatcher::new();
    mailbox.publish(Exchange::InquiryAnswered { level: Ok(1) });
    assert_eq!(dispatcher.tick(&mut mailbox, &registry, false), Step::Nothing);
    assert_eq!(mailbox.peek(), Exchange::InquiryAnswered { level: Ok(1) });
}
