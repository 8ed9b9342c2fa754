use std::io::{Error, ErrorKind};
use web_pty::relay::{forward_input, holds_engrave_key, relay_step, shows_engraving, RelayAction, RelayEvent, StopReason, ENGRAVE_KEY};

#[test]
fn engrave_key_becomes_the_engraving() {
    assert_eq!(forward_input(&[5]), b"E-  Elbereth\n".to_vec());
    let mut expected = b"a".to_vec();
    expected.extend_from_slice(b"E-  Elbereth\n");
    expected.extend_from_slice(b"b");
    expected.extend_from_slice(b"E-  Elbereth\n");
    assert_eq!(forward_input(b"a\x05b\x05"), expected);
}

#[test]
fn input_without_engrave_key_passes_unchanged() {
    assert_eq!(forward_input(b"ls -la\n"), b"ls -la\n".to_vec());
    assert_eq!(forward_input(b""), Vec::<u8>::new());
}

#[test]
fn forwarding_does_not_depend_on_read_boundaries() {
    let a: &[u8] = b"x\x05y";
    let b: &[u8] = b"\x05\x05z";
    let mut whole = a.to_vec();
    whole.extend_from_slice(b);
    let mut parts = forward_input(a);
    parts.extend(forward_input(b));
    assert_eq!(forward_input(&whole), parts);
}

#[test]
fn forwarded_input_holds_no_engrave_key() {
    let out = forward_input(b"\x05\x05\x05abc\x05");
    assert!(!out.contains(&ENGRAVE_KEY));
    assert_eq!(out.len(), 4 * 13 + 3);
}

#[test]
fn engrave_key_detection() {
    assert!(holds_engrave_key(b"ab\x05"));
    assert!(!holds_engrave_key(b"abc"));
    assert!(!holds_engrave_key(b""));
}

#[test]
fn engraving_is_seen_in_output() {
    assert!(shows_engraving(b"You write in the dust: Elbereth."));
    assert!(shows_engraving(b"Elbereth"));
    assert!(!shows_engraving(b"elbereth"));
    assert!(!shows_engraving(b"Elberet"));
    assert!(!shows_engraving(b""));
}

#[test]
fn relay_sends_input_to_the_terminal() {
    match relay_step(RelayEvent::Input(Ok(b"q\x05".to_vec()))) {
        RelayAction::WriteToTerminal(bytes) => assert_eq!(bytes, b"qE-  Elbereth\n".to_vec()),
        _ => panic!("expected a write to the terminal"),
    }
}

#[test]
fn relay_sends_output_to_stdout() {
    match relay_step(RelayEvent::Output(Ok(b"Elbereth glows".to_vec()))) {
        RelayAction::WriteToStdout { bytes, engraved } => {
            assert_eq!(bytes, b"Elbereth glows".to_vec());
            assert!(engraved);
        }
        _ => panic!("expected a write to stdout"),
    }
    match relay_step(RelayEvent::Output(Ok(b"plain".to_vec()))) {
        RelayAction::WriteToStdout { bytes, engraved } => {
            assert_eq!(bytes, b"plain".to_vec());
            assert!(!engraved);
        }
        _ => panic!("expected a write to stdout"),
    }
}

#[test]
fn relay_stops_on_failure_or_exit() {
    let e = Error::new(ErrorKind::Other, "gone");
    assert!(matches!(relay_step(RelayEvent::Input(Err(e))), RelayAction::Stop(StopReason::InputFailed(_))));
    let e = Error::new(ErrorKind::Other, "gone");
    assert!(matches!(relay_step(RelayEvent::Output(Err(e))), RelayAction::Stop(StopReason::OutputFailed(_))));
    assert!(matches!(relay_step(RelayEvent::ChildExited), RelayAction::Stop(StopReason::ChildExited)));
}
