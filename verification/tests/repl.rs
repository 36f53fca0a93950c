use p2p_chat::command::HELP;
use p2p_chat::frame::{ChatMessage, FrameError};
use p2p_chat::repl::{Repl, Request, info_text};
use p2p_chat::store::{PeerId, peer_id_hex};
use p2p_chat::ui::{TrustState, Ui};

fn peer(seed: u8) -> PeerId {
    let mut bytes = [0u8; 32];
    for (i, b) in bytes.iter_mut().enumerate() {
        *b = (i as u8).wrapping_mul(29).wrapping_add(seed);
    }
    PeerId::from_bytes(bytes)
}

/// A stand-in for a Chat Session handle.
#[derive(Debug, PartialEq)]
struct Session(u32);

#[test]
fn help_prints_the_command_list() {
    let mut repl: Repl<Session> = Repl::new();
    let mut ui = Ui::new();
    assert!(matches!(repl.handle_line(&mut ui, "/help", false), Request::Nothing));
    assert_eq!(ui.take_out(), format!("{HELP}\n"));
}

#[test]
fn commands_needing_a_session_report_its_absence() {
    let mut repl: Repl<Session> = Repl::new();
    let mut ui = Ui::new();
    for line in ["/sas", "/verify", "/close"] {
        assert!(matches!(repl.handle_line(&mut ui, line, false), Request::Nothing));
        assert_eq!(ui.take_err(), "! no Chat Session\n");
    }
    assert!(matches!(repl.handle_line(&mut ui, "hello", false), Request::Nothing));
    assert_eq!(ui.take_err(), "! no Chat Session; /dial or wait for inbound\n");
    assert_eq!(ui.take_out(), "");
}

#[test]
fn parse_errors_are_shown() {
    let mut repl: Repl<Session> = Repl::new();
    let mut ui = Ui::new();
    repl.handle_line(&mut ui, "/foo", false);
    assert_eq!(ui.take_err(), "! unknown command: /foo (try /help)\n");
    repl.handle_line(&mut ui, "/dial", false);
    assert_eq!(ui.take_err(), "! usage: /dial <64-hex-peer-id>\n");
    repl.handle_line(&mut ui, "/sas x", false);
    assert_eq!(ui.take_err(), "! /sas takes no arguments\n");
    repl.handle_line(&mut ui, "/dial zz", false);
    assert_eq!(ui.take_err(), "! invalid Peer ID\n");
}

#[test]
fn quit_and_exit_leave() {
    let mut repl: Repl<Session> = Repl::new();
    let mut ui = Ui::new();
    assert!(matches!(repl.handle_line(&mut ui, "/quit", false), Request::Quit));
    assert!(matches!(repl.handle_line(&mut ui, " /exit ", false), Request::Quit));
    assert!(matches!(repl.handle_line(&mut ui, "   ", false), Request::Nothing));
}

#[test]
fn dial_starts_once_and_is_refused_while_in_flight() {
    let mut repl: Repl<Session> = Repl::new();
    let mut ui = Ui::new();
    let p = peer(5);
    let hex = peer_id_hex(p);
    match repl.handle_line(&mut ui, &format!("/dial {hex}"), true) {
        Request::Dial { peer, relay_hints } => {
            assert_eq!(peer, p);
            assert!(relay_hints);
        }
        _ => panic!("expected a dial"),
    }
    assert!(repl.dialing);
    assert_eq!(ui.take_out(), format!("* dialing {hex}\n"));
    assert!(matches!(repl.handle_line(&mut ui, &format!("/dial {hex}"), true), Request::Nothing));
    assert_eq!(ui.take_err(), "! already dialing; wait for completion or /quit\n");
}

#[test]
fn dial_completion_fills_the_slot_and_refuses_further_dials() {
    let mut repl: Repl<Session> = Repl::new();
    let mut ui = Ui::new();
    let p = peer(9);
    let hex = peer_id_hex(p);
    repl.handle_line(&mut ui, &format!("/dial {hex}"), false);
    ui.take_out();
    assert!(repl.on_dial_connected(&mut ui, Session(1), p, TrustState::Tofu).is_none());
    assert!(!repl.dialing);
    assert!(!repl.accepting());
    assert!(repl.receiving());
    assert_eq!(ui.take_out(), format!("* Chat Session outbound: {hex} (TOFU)\n"));
    assert!(matches!(repl.handle_line(&mut ui, &format!("/dial {hex}"), false), Request::Nothing));
    assert_eq!(ui.take_err(), "! already in a Chat Session; /close first\n");
}

#[test]
fn dial_failure_clears_the_flight() {
    let mut repl: Repl<Session> = Repl::new();
    let mut ui = Ui::new();
    let hex = peer_id_hex(peer(1));
    repl.handle_line(&mut ui, &format!("/dial {hex}"), false);
    repl.on_dial_failed(&mut ui, "peer offline");
    assert!(!repl.dialing);
    assert_eq!(ui.take_err(), "! dial failed: peer offline\n");
}

#[test]
fn inbound_session_then_chat_then_close() {
    let mut repl: Repl<Session> = Repl::new();
    let mut ui = Ui::new();
    let p = peer(3);
    let hex = peer_id_hex(p);
    assert!(repl.accepting());
    repl.on_accepted(&mut ui, Session(7), p, TrustState::Verified);
    assert_eq!(ui.take_out(), format!("* Chat Session inbound: {hex} (Verified)\n"));
    match repl.handle_line(&mut ui, "  hi there ", false) {
        Request::Send(text) => assert_eq!(text, "hi there"),
        _ => panic!("expected a send"),
    }
    assert!(matches!(repl.handle_line(&mut ui, "/sas", false), Request::Sas));
    assert!(matches!(repl.handle_line(&mut ui, "/verify", false), Request::Verify));
    assert!(matches!(repl.handle_line(&mut ui, "/info", false), Request::Info));
    match repl.handle_line(&mut ui, "/close", false) {
        Request::Close(s) => assert_eq!(s, Session(7)),
        _ => panic!("expected a close"),
    }
    assert_eq!(ui.take_out(), "* Chat Session closed.\n");
    assert!(repl.session.is_none());
}

#[test]
fn remote_close_and_failures_empty_the_slot() {
    let mut ui = Ui::new();
    let p = peer(4);
    let mut repl: Repl<Session> = Repl::new();
    repl.on_accepted(&mut ui, Session(1), p, TrustState::Tofu);
    ui.take_out();
    assert_eq!(repl.on_remote_closed(&mut ui), Some(Session(1)));
    assert_eq!(ui.take_out(), "* Remote Peer closed the Chat Session.\n");
    repl.on_accepted(&mut ui, Session(2), p, TrustState::Tofu);
    assert_eq!(repl.on_recv_failed(&mut ui, "reset"), Some(Session(2)));
    assert_eq!(ui.take_err(), "! recv failed: reset\n");
    repl.on_accepted(&mut ui, Session(3), p, TrustState::Tofu);
    assert_eq!(repl.on_send_failed(&mut ui, "broken"), Some(Session(3)));
    assert_eq!(ui.take_err(), "! send failed: broken\n");
    assert!(repl.accepting());
}

#[test]
fn received_messages_are_rendered() {
    let mut ui = Ui::new();
    Repl::<Session>::on_message(&mut ui, &ChatMessage::new("yo\x07", 1));
    assert_eq!(ui.take_out(), "< yo\u{fffd}\n");
}

#[test]
fn accept_failures() {
    let mut ui = Ui::new();
    assert!(matches!(Repl::<Session>::on_accept_failed(&mut ui, true, "closed"), Request::Quit));
    assert_eq!(ui.take_err(), "");
    assert!(matches!(Repl::<Session>::on_accept_failed(&mut ui, false, "boom"), Request::Nothing));
    assert_eq!(ui.take_err(), "! accept failed: boom\n");
}

#[test]
fn info_sas_and_verify_lines() {
    let local = peer(10);
    let remote = peer(20);
    let (lh, rh) = (peer_id_hex(local), peer_id_hex(remote));
    assert_eq!(
        info_text(local, None),
        format!("Local Peer ID: {lh}\nChat Session: none")
    );
    assert_eq!(
        info_text(local, Some((remote, TrustState::Tofu))),
        format!("Local Peer ID: {lh}\nRemote Peer ID: {rh}\nTrust State: TOFU")
    );
    let mut ui = Ui::new();
    Repl::<Session>::show_sas(&mut ui, "12345 67890");
    Repl::<Session>::on_verified(&mut ui, remote);
    assert_eq!(
        ui.take_out(),
        format!("SAS Display: 12345 67890\n* Trust State: Verified ({rh})\n")
    );
    Repl::<Session>::on_verify_failed(&mut ui, "no record");
    assert_eq!(ui.take_err(), "! verify failed: no record\n");
}

#[test]
fn greeting_shows_the_peer_id() {
    let local = peer(11);
    let mut ui = Ui::new();
    Repl::<Session>::greet(&mut ui, local);
    assert_eq!(
        ui.take_out(),
        format!(
            "Peer ID: {}\n* Type /help for Slash Commands. Listening for inbound Chat Sessions.\n",
            peer_id_hex(local)
        )
    );
}

#[test]
fn input_errors_leave() {
    let mut ui = Ui::new();
    assert!(matches!(Repl::<Session>::on_input_error(&mut ui, "eof"), Request::Quit));
    assert_eq!(ui.take_err(), "! stdin: eof\n");
}

#[test]
fn frame_error_messages() {
    assert_eq!(
        FrameError::FrameTooLarge { size: 2000000, max: 1048576 }.message(),
        "frame length exceeds maximum allowed limit (2000000 > 1048576)"
    );
    assert_eq!(FrameError::Json.message(), "failed to serialize/deserialize frame JSON");
    assert_eq!(FrameError::UnexpectedEof.message(), "unexpected EOF while reading frame");
    assert_eq!(FrameError::Session.message(), "session I/O failed");
}

#[test]
fn a_late_dial_does_not_displace_an_accepted_session() {
    let mut repl: Repl<Session> = Repl::new();
    let mut ui = Ui::new();
    let dialed = peer(30);
    let inbound = peer(31);
    repl.handle_line(&mut ui, &format!("/dial {}", peer_id_hex(dialed)), false);
    assert!(repl.accepting());
    assert!(repl.on_accepted(&mut ui, Session(1), inbound, TrustState::Tofu).is_none());
    ui.take_out();
    assert_eq!(
        repl.on_dial_connected(&mut ui, Session(2), dialed, TrustState::Tofu),
        Some(Session(2))
    );
    assert_eq!(repl.session, Some(Session(1)));
    assert!(!repl.dialing);
    assert_eq!(ui.take_out(), "");
    assert_eq!(
        ui.take_err(),
        format!(
            "! already in a Chat Session; closing Chat Session outbound: {} (TOFU)\n",
            peer_id_hex(dialed)
        )
    );
}

#[test]
fn interrupt_goes_on_and_end_of_input_leaves() {
    let mut ui = Ui::new();
    assert!(matches!(Repl::<Session>::on_interrupted(&mut ui), Request::Nothing));
    assert!(matches!(Repl::<Session>::on_end_of_input(&mut ui), Request::Quit));
    assert_eq!(ui.take_out(), "");
    assert_eq!(ui.take_err(), "");
}
