use p2p_chat::command::{ParseError, UserInput, parse_line};
use p2p_chat::store::{PeerId, peer_id_hex};

fn sample_peer() -> (PeerId, String) {
    let mut bytes = [0u8; 32];
    for (i, b) in bytes.iter_mut().enumerate() {
        *b = (i as u8).wrapping_mul(37).wrapping_add(11);
    }
    let id = PeerId::from_bytes(bytes);
    (id, peer_id_hex(id))
}

#[test]
fn empty_and_whitespace_are_ignored() {
    assert_eq!(parse_line(""), Ok(None));
    assert_eq!(parse_line("   \t  "), Ok(None));
}

#[test]
fn plain_text_is_a_chat_message() {
    assert_eq!(
        parse_line("hello there"),
        Ok(Some(UserInput::Message("hello there".into())))
    );
    assert_eq!(
        parse_line("  dial me  "),
        Ok(Some(UserInput::Message("dial me".into())))
    );
}

#[test]
fn slash_commands_without_args() {
    assert_eq!(parse_line("/sas"), Ok(Some(UserInput::Sas)));
    assert_eq!(parse_line("  /verify  "), Ok(Some(UserInput::Verify)));
    assert_eq!(parse_line("/info"), Ok(Some(UserInput::Info)));
    assert_eq!(parse_line("/close"), Ok(Some(UserInput::Close)));
    assert_eq!(parse_line("/help"), Ok(Some(UserInput::Help)));
    assert_eq!(parse_line("/quit"), Ok(Some(UserInput::Quit)));
    assert_eq!(parse_line("/exit"), Ok(Some(UserInput::Quit)));
}

#[test]
fn extra_args_on_simple_commands_are_rejected() {
    assert_eq!(parse_line("/sas extra"), Err(ParseError::ExtraArgs("sas")));
    assert_eq!(parse_line("/quit now"), Err(ParseError::ExtraArgs("quit")));
}

#[test]
fn unknown_slash_command_is_an_error() {
    assert_eq!(
        parse_line("/foo"),
        Err(ParseError::UnknownCommand("foo".into()))
    );
    assert_eq!(
        parse_line("/"),
        Err(ParseError::UnknownCommand(String::new()))
    );
}

#[test]
fn dial_requires_a_64_char_hex_peer_id() {
    assert_eq!(parse_line("/dial"), Err(ParseError::DialUsage));
    assert_eq!(parse_line("/dial not-hex"), Err(ParseError::InvalidPeerId));
    assert_eq!(parse_line("/dial aabbcc"), Err(ParseError::InvalidPeerId));
}

#[test]
fn dial_accepts_generated_peer_id_hex() {
    let (peer, hex) = sample_peer();
    assert_eq!(
        parse_line(&format!("/dial {hex}")),
        Ok(Some(UserInput::Dial(peer)))
    );
    assert_eq!(
        parse_line(&format!("/dial  {hex}  ")),
        Ok(Some(UserInput::Dial(peer)))
    );
    assert_eq!(
        parse_line(&format!("/dial {}", hex.to_uppercase())),
        Ok(Some(UserInput::Dial(peer)))
    );
}

#[test]
fn exit_reports_extra_args_as_quit() {
    assert_eq!(parse_line("/exit now"), Err(ParseError::ExtraArgs("quit")));
}

#[test]
fn dial_argument_may_follow_a_tab_and_other_white_space() {
    let (peer, hex) = sample_peer();
    assert_eq!(
        parse_line(&format!("\u{3000}/dial\t{hex}\u{a0}")),
        Ok(Some(UserInput::Dial(peer)))
    );
}

#[test]
fn dial_with_two_arguments_is_an_invalid_peer_id() {
    let (_, hex) = sample_peer();
    assert_eq!(
        parse_line(&format!("/dial {hex} {hex}")),
        Err(ParseError::InvalidPeerId)
    );
}

#[test]
fn command_words_are_case_sensitive() {
    assert_eq!(
        parse_line("/SAS"),
        Err(ParseError::UnknownCommand("SAS".into()))
    );
}

#[test]
fn text_with_inner_slash_is_a_message() {
    assert_eq!(
        parse_line("a/b"),
        Ok(Some(UserInput::Message("a/b".into())))
    );
}
