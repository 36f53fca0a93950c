use p2p_chat::cli::{
    Args, command_words, dial_relay_urls, n0_public_relay_urls, needs_password_prompt, relay_hints,
};
use p2p_chat::store::{RelayChoice, StoreChoice, relay_config, store_choice};

#[test]
fn parses_data_dir_password_and_relay() {
    let args = Args::try_parse_from(&[
        "p2p-chat",
        "--data-dir",
        "/tmp/p2p-data",
        "--password",
        "secret",
        "--relay",
        "https://relay.example",
    ])
    .unwrap();
    assert_eq!(
        args.data_dir.as_deref(),
        Some(std::path::Path::new("/tmp/p2p-data"))
    );
    assert_eq!(args.password.as_deref(), Some("secret"));
    assert_eq!(args.relay.as_deref(), Some("https://relay.example"));
    assert!(!args.temp);
    assert!(!args.n0_public);
}

#[test]
fn no_flags_defaults_to_ephemeral() {
    let args = Args::try_parse_from(&["p2p-chat"]).unwrap();
    assert!(!args.temp);
    assert!(args.data_dir.is_none());
    assert!(args.password.is_none());
    assert!(args.relay.is_none());
    assert!(!args.n0_public);
}

#[test]
fn parses_temp_and_n0_public() {
    let args = Args::try_parse_from(&["p2p-chat", "--temp", "--n0-public"]).unwrap();
    assert!(args.temp);
    assert!(args.n0_public);
    assert!(args.data_dir.is_none());
    assert!(args.relay.is_none());
}

#[test]
fn data_dir_conflicts_with_temp() {
    assert!(Args::try_parse_from(&["p2p-chat", "--temp", "--data-dir", "/tmp/x"]).is_err());
}

#[test]
fn relay_conflicts_with_n0_public() {
    assert!(
        Args::try_parse_from(&[
            "p2p-chat",
            "--temp",
            "--relay",
            "https://relay.example",
            "--n0-public"
        ])
        .is_err()
    );
}

#[test]
fn unknown_flag_is_refused_on_stderr() {
    let err = Args::try_parse_from(&["p2p-chat", "--bogus"]).unwrap_err();
    assert!(err.to_stderr);
    assert_ne!(err.exit_code, 0);
    assert!(err.message.contains("--bogus"));
}

#[test]
fn help_is_not_an_error_exit() {
    let err = Args::try_parse_from(&["p2p-chat", "--help"]).unwrap_err();
    assert!(!err.to_stderr);
    assert_eq!(err.exit_code, 0);
    assert!(err.message.contains("--data-dir <DATA_DIR>"));
    assert!(err.message.contains("--relay <RELAY>"));
    assert!(err.message.contains("Startup flags for p2p-chat. REPL is Ticket 3\n"));
    assert!(err.message.contains("Custom Relay URL\n"));
    assert!(!err.message.contains("Custom Relay URL."));
}

#[test]
fn conflicting_flags_are_refused_in_either_order() {
    assert!(Args::try_parse_from(&["p2p-chat", "--data-dir", "/tmp/x", "--temp"]).is_err());
    assert!(Args::try_parse_from(&["p2p-chat", "--n0-public", "--relay", "https://r"]).is_err());
    let err = Args::try_parse_from(&["p2p-chat", "--temp", "--data-dir", "/tmp/x"]).unwrap_err();
    assert!(err.to_stderr);
    assert!(err.message.contains("cannot be used with"));
}

#[test]
fn empty_data_dir_is_refused() {
    assert!(Args::try_parse_from(&["p2p-chat", "--data-dir", ""]).is_err());
}

fn args(data_dir: Option<&str>, password: Option<&str>, relay: Option<&str>, n0: bool) -> Args {
    Args {
        data_dir: data_dir.map(std::path::PathBuf::from),
        temp: data_dir.is_none(),
        password: password.map(str::to_string),
        relay: relay.map(str::to_string),
        n0_public: n0,
    }
}

#[test]
fn password_is_asked_only_for_a_data_dir_without_one() {
    assert!(needs_password_prompt(&args(Some("/d"), None, None, false)));
    assert!(!needs_password_prompt(&args(Some("/d"), Some("pw"), None, false)));
    assert!(!needs_password_prompt(&args(None, None, None, false)));
}

#[test]
fn n0_relays_are_the_four_iroh_production_hosts() {
    assert_eq!(
        n0_public_relay_urls(),
        vec![
            "https://use1-1.relay.n0.iroh.link.",
            "https://usw1-1.relay.n0.iroh.link.",
            "https://euc1-1.relay.n0.iroh.link.",
            "https://aps1-1.relay.n0.iroh.link.",
        ]
    );
}

#[test]
fn dial_relays_follow_the_flags() {
    assert_eq!(dial_relay_urls(&args(None, None, None, true)), n0_public_relay_urls());
    assert_eq!(
        dial_relay_urls(&args(None, None, Some("https://r.example"), false)),
        vec!["https://r.example".to_string()]
    );
    assert!(dial_relay_urls(&args(None, None, None, false)).is_empty());
}

#[test]
fn relay_config_prefers_n0_then_custom_then_none() {
    assert_eq!(relay_config(&args(None, None, None, true)), RelayChoice::N0Public);
    assert_eq!(
        relay_config(&args(None, None, Some("https://r.example"), false)),
        RelayChoice::Custom("https://r.example".to_string())
    );
    assert_eq!(relay_config(&args(None, None, None, false)), RelayChoice::Disabled);
}

#[test]
fn store_choice_uses_files_only_with_a_data_dir() {
    let a = args(Some("/d"), None, None, false);
    match store_choice(&a) {
        StoreChoice::File { dir, password } => {
            assert_eq!(dir, &std::path::PathBuf::from("/d"));
            assert_eq!(password, "");
        }
        StoreChoice::Memory => panic!("expected file stores"),
    }
    let a = args(Some("/d"), Some("pw"), None, false);
    assert!(matches!(store_choice(&a), StoreChoice::File { password: "pw", .. }));
    assert!(matches!(store_choice(&args(None, None, None, false)), StoreChoice::Memory));
}

#[test]
fn from_matches_reads_values_and_switches_by_id() {
    let m = clap::Command::new("t")
        .arg(clap::Arg::new("password").long("password"))
        .arg(clap::Arg::new("temp").long("temp").action(clap::ArgAction::SetTrue))
        .try_get_matches_from(["t", "--password", "pw", "--temp"])
        .unwrap();
    let a = Args::from_matches(&m);
    assert_eq!(a.password.as_deref(), Some("pw"));
    assert!(a.temp);
    assert!(a.data_dir.is_none());
    assert!(a.relay.is_none());
    assert!(!a.n0_public);
}

#[test]
fn values_may_follow_an_equals_sign() {
    let args = Args::try_parse_from(&["p2p-chat", "--relay=https://r.example", "--data-dir=/d"]).unwrap();
    assert_eq!(args.relay.as_deref(), Some("https://r.example"));
    assert_eq!(args.data_dir.as_deref(), Some(std::path::Path::new("/d")));
}

#[test]
fn words_are_copied_in_order() {
    assert_eq!(command_words(&["a", "--b", ""]), vec!["a".to_string(), "--b".to_string(), String::new()]);
}

#[test]
fn relay_hints_only_with_urls() {
    assert!(!relay_hints(&vec![]));
    assert!(relay_hints(&vec!["https://r".to_string()]));
}
