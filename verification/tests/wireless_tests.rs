use hub::action::Action;
use hub::error::{ErrorKind, Rejection};
use hub::inquiry::{InquiryWait, Poll};
use hub::mailbox::{Exchange, Mailbox};
use hub::registry::{Device, Registry};
use hub::wireless::{read_response, step_down, write_abbreviated, write_free_text, write_level};

const KITCHEN: u128 = 0x36bc0fe1b00742809ec6b36c8bc98537;
const BEDROOM: u128 = 0x0584507902e74f44b67902b90775abda;

fn house() -> Registry {
    let mut registry = Registry::new();
    for (name, uuid, ip) in [("kitchen", KITCHEN, "10.0.0.2"), ("bedroom", BEDROOM, "10.0.0.3")] {
        assert!(registry.register(Device {
            name: name.to_string(),
            uuid,
            ip: ip.to_string(),
            target: 0,
        }));
    }
    registry
}

#[test]
fn level_write_publishes_a_set() {
    let mut mailbox = Mailbox::new();
    assert_eq!(
        write_level(&mut mailbox, BEDROOM, b"4"),
        Ok((BEDROOM, Action::SetTo { target: 4 }))
    );
    assert_eq!(
        mailbox.peek(),
        Exchange::CommandPending { device_id: BEDROOM, action: Action::SetTo { target: 4 } }
    );
}

#[test]
fn bad_level_write_is_rejected_not_fatal() {
    let mut mailbox = Mailbox::new();
    mailbox.publish(Exchange::InquiryAnswered { level: Ok(1) });
    assert_eq!(write_level(&mut mailbox, BEDROOM, b""), Err(Rejection::MissingTarget));
    assert_eq!(write_level(&mut mailbox, BEDROOM, b"8"), Err(Rejection::TargetOutOfRange));
    assert_eq!(write_level(&mut mailbox, BEDROOM, b"x"), Err(Rejection::TargetNotNumber));
    assert_eq!(mailbox.peek(), Exchange::InquiryAnswered { level: Ok(1) });
}

#[test]
fn free_text_write_publishes_the_command() {
    let registry = house();
    let mut mailbox = Mailbox::new();
    assert_eq!(
        write_free_text(&mut mailbox, &registry, b"Kitchen set 6"),
        Ok((KITCHEN, Action::SetTo { target: 6 }))
    );
    assert_eq!(
        mailbox.peek(),
        Exchange::CommandPending { device_id: KITCHEN, action: Action::SetTo { target: 6 } }
    );
    assert_eq!(write_free_text(&mut mailbox, &registry, b"bedroom off"), Ok((BEDROOM, Action::Off)));
    assert_eq!(
        mailbox.peek(),
        Exchange::CommandPending { device_id: BEDROOM, action: Action::Off }
    );
}

#[test]
fn bad_free_text_write_leaves_the_mailbox() {
    let registry = house();
    let mut mailbox = Mailbox::new();
    for (payload, fault) in [
        (&b""[..], Rejection::MissingDevice),
        (&b"attic on"[..], Rejection::UnknownDevice),
        (&b"kitchen"[..], Rejection::MissingAction),
        (&b"kitchen up"[..], Rejection::InvalidAction),
        (&b"kitchen set"[..], Rejection::MissingTarget),
        (&b"kitchen set 8"[..], Rejection::TargetOutOfRange),
        (&b"kitchen set -1"[..], Rejection::TargetNotNumber),
        (&b"\xf0\x28\x8c\x28"[..], Rejection::NotText),
    ] {
        assert_eq!(write_free_text(&mut mailbox, &registry, payload), Err(fault));
        assert_eq!(mailbox.peek(), Exchange::Idle);
    }
}

#[test]
fn write_that_is_no_utf8_is_rejected_and_leaves_the_mailbox() {
    let registry = house();
    let held = Exchange::InquiryAnswered { level: Ok(1) };
    for payload in [&b"\xff\xfe"[..], &b"5\xff"[..], &b"kitchen on 5 \xff"[..], &b"kist05\xc3"[..]] {
        let mut mailbox = Mailbox::new();
        mailbox.publish(held);
        assert_eq!(write_level(&mut mailbox, BEDROOM, payload), Err(Rejection::NotText));
        assert_eq!(write_free_text(&mut mailbox, &registry, payload), Err(Rejection::NotText));
        assert_eq!(write_abbreviated(&mut mailbox, &registry, payload), Err(Rejection::NotText));
        assert_eq!(mailbox.peek(), held);
    }
}

#[test]
fn upper_case_and_extra_white_space_leave_the_same_mailbox() {
    let registry = house();
    for (plain, loud) in [
        (&b"kitchen set 6"[..], "  KITCHEN\t SET \u{a0} 6\n".as_bytes()),
        (&b"bedroom off"[..], "Bedroom\u{2003}OFF".as_bytes()),
    ] {
        let mut first = Mailbox::new();
        let mut second = Mailbox::new();
        let expected = write_free_text(&mut first, &registry, plain);
        assert!(expected.is_ok());
        assert_eq!(write_free_text(&mut second, &registry, loud), expected);
        assert_eq!(second.peek(), first.peek());
    }
}

#[test]
fn abbreviated_write_publishes_the_command() {
    let registry = house();
    let mut mailbox = Mailbox::new();
    assert_eq!(
        write_abbreviated(&mut mailbox, &registry, b"kist03"),
        Ok((KITCHEN, Action::SetTo { target: 3 }))
    );
    assert_eq!(
        mailbox.peek(),
        Exchange::CommandPending { device_id: KITCHEN, action: Action::SetTo { target: 3 } }
    );
    assert_eq!(write_abbreviated(&mut mailbox, &registry, b"BEON"), Ok((BEDROOM, Action::On)));
    assert_eq!(mailbox.peek(), Exchange::CommandPending { device_id: BEDROOM, action: Action::On });
}

#[test]
fn bad_abbreviated_write_leaves_the_mailbox() {
    let registry = house();
    let mut mailbox = Mailbox::new();
    for (payload, fault) in [
        (&b"kis"[..], Rejection::Malformed),
        (&b"xxon"[..], Rejection::UnknownDevice),
        (&b"kixx"[..], Rejection::InvalidAction),
        (&b"kist"[..], Rejection::MissingTarget),
        (&b"kist08"[..], Rejection::TargetOutOfRange),
        (&b"kist-1"[..], Rejection::TargetNotNumber),
    ] {
        assert_eq!(write_abbreviated(&mut mailbox, &registry, payload), Err(fault));
        assert_eq!(mailbox.peek(), Exchange::Idle);
    }
}

#[test]
fn read_answers_with_the_numeral_of_the_level() {
    assert_eq!(read_response(Poll::Pending), None);
    assert_eq!(read_response(Poll::Answered { level: 0 }), Some(Ok(b"0".to_vec())));
    assert_eq!(read_response(Poll::Answered { level: 7 }), Some(Ok(b"7".to_vec())));
    assert_eq!(read_response(Poll::Answered { level: 42 }), Some(Ok(b"42".to_vec())));
    assert_eq!(read_response(Poll::TimedOut { fallback: 5 }), Some(Ok(b"5".to_vec())));
    assert_eq!(
        read_response(Poll::Failed { error: ErrorKind::DeviceUnreachable }),
        Some(Err(ErrorKind::DeviceUnreachable))
    );
}

#[test]
fn read_without_a_dispatcher_falls_back() {
    let mut mailbox = Mailbox::new();
    let mut wait = InquiryWait::begin(&mut mailbox, KITCHEN, 2, 3);
    let mut looks = 0;
    let response = loop {
        looks += 1;
        if let Some(response) = read_response(wait.poll(&mut mailbox)) {
            break response;
        }
    };
    assert_eq!(looks, 3);
    assert_eq!(response, Ok(b"3".to_vec()));
}

#[test]
fn pushed_value_steps_down_to_zero() {
    let mut value = vec![0x10, 0x01, 0x01, 0x10];
    step_down(&mut value);
    assert_eq!(value, vec![0x0f, 0x00, 0x00, 0x0f]);
    step_down(&mut value);
    assert_eq!(value, vec![0x0e, 0x00, 0x00, 0x0e]);
    let mut edge = vec![0u8, 255];
    step_down(&mut edge);
    assert_eq!(edge, vec![0u8, 254]);
    let mut empty: Vec<u8> = Vec::new();
    step_down(&mut empty);
    assert!(empty.is_empty());
}
