use p2p_chat::store::{PeerId, peer_id_hex};
use p2p_chat::ui::{
    SHORT_LEN, TrustState, Ui, prompt_change, prompt_for, trust_label, trust_or_unknown,
};

fn sample() -> (PeerId, String) {
    let mut bytes = [0u8; 32];
    for (i, b) in bytes.iter_mut().enumerate() {
        *b = (i as u8).wrapping_mul(151).wrapping_add(3);
    }
    let id = PeerId::from_bytes(bytes);
    (id, peer_id_hex(id))
}

#[test]
fn idle_prompt_has_no_peer() {
    assert_eq!(prompt_for(None), "[idle]> ");
}

#[test]
fn session_prompt_shows_short_peer_and_trust_label() {
    let (id, hex) = sample();
    for (state, label) in [
        (TrustState::Tofu, "TOFU"),
        (TrustState::Verified, "Verified"),
        (TrustState::Unknown, "unknown"),
    ] {
        assert_eq!(
            prompt_for(Some((id, state))),
            format!("[{}|{}]> ", &hex[..SHORT_LEN], label)
        );
    }
}

#[test]
fn short_peer_id_is_eight_chars_and_a_prefix_of_the_full_hex() {
    let (id, hex) = sample();
    let prompt = prompt_for(Some((id, TrustState::Tofu)));
    let short = prompt
        .trim_start_matches('[')
        .split('|')
        .next()
        .expect("prompt has a peer segment");
    assert_eq!(short.len(), SHORT_LEN);
    assert!(hex.starts_with(short), "{short} should prefix {hex}");
}

#[test]
fn each_kind_is_prefixed_and_newline_terminated() {
    let mut ui = Ui::new();
    ui.recv("hi");
    ui.system("Chat Session inbound");
    ui.raw("line one\nline two");
    assert_eq!(
        ui.take_out(),
        "< hi\n* Chat Session inbound\nline one\nline two\n"
    );
    ui.error("no Chat Session");
    assert_eq!(ui.take_err(), "! no Chat Session\n");
}

#[test]
fn errors_do_not_reach_the_output_sink() {
    let mut ui = Ui::new();
    ui.error("dial failed");
    assert_eq!(ui.take_out(), "");
}

#[test]
fn recv_neutralises_remote_control_characters() {
    let mut ui = Ui::new();
    ui.recv("evil\x1b[2Jwipe\nfake");
    assert_eq!(ui.take_out(), "< evil\u{fffd}[2Jwipe\u{fffd}fake\n");
}

#[test]
fn recv_leaves_ordinary_text_alone() {
    let mut ui = Ui::new();
    ui.recv("héllo 世界 🙂");
    assert_eq!(ui.take_out(), "< héllo 世界 🙂\n");
}

#[test]
fn trust_labels() {
    assert_eq!(trust_label(TrustState::Verified), "Verified");
    assert_eq!(trust_label(TrustState::Tofu), "TOFU");
    assert_eq!(trust_label(TrustState::Unknown), "unknown");
}

#[test]
fn recv_neutralises_c1_controls_and_delete() {
    let mut ui = Ui::new();
    ui.recv("a\u{7f}b\u{85}c\u{9f}d\u{a0}");
    assert_eq!(ui.take_out(), "< a\u{fffd}b\u{fffd}c\u{fffd}d\u{a0}\n");
}

#[test]
fn taking_a_sink_empties_it() {
    let mut ui = Ui::new();
    ui.system("one");
    assert_eq!(ui.take_out(), "* one\n");
    assert_eq!(ui.take_out(), "");
}

#[test]
fn prompt_changes_only_when_it_differs() {
    let (id, _) = sample();
    assert_eq!(prompt_change(&"[idle]> ".to_string(), None), None);
    let want = prompt_for(Some((id, TrustState::Tofu)));
    assert_eq!(prompt_change(&"[idle]> ".to_string(), Some((id, TrustState::Tofu))), Some(want.clone()));
    assert_eq!(prompt_change(&want, Some((id, TrustState::Tofu))), None);
}

#[test]
fn missing_trust_state_is_unknown() {
    assert_eq!(trust_or_unknown(None), TrustState::Unknown);
    assert_eq!(trust_or_unknown(Some(TrustState::Verified)), TrustState::Verified);
}
