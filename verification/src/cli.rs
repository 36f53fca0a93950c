//! Startup flags: what the command line asks for, and the choices that
//! follow from it before the REPL starts.

use std::path::PathBuf;

use clap::{Arg, ArgAction, ArgMatches, Command};
use vstd::prelude::*;

verus! {

#[verifier::external_type_specification]
#[verifier::external_body]
pub struct ExCommand(Command);

#[verifier::external_type_specification]
#[verifier::external_body]
pub struct ExArg(Arg);

#[verifier::external_type_specification]
#[verifier::external_body]
pub struct ExArgMatches(ArgMatches);

#[verifier::external_type_specification]
#[verifier::external_body]
pub struct ExPathBuf(PathBuf);

/// A command line that was refused, or a request for help or version text:
/// what to print, where, and the exit code.
#[derive(Debug, Clone, PartialEq, Eq)]
pub struct CliError {
    /// The rendered message.
    pub message: String,
    /// The process exit code that goes with it.
    pub exit_code: i32,
    /// Whether the message belongs on stderr (otherwise stdout).
    pub to_stderr: bool,
}

/// Startup flags for the chat program.
#[derive(Debug)]
pub struct Args {
    /// Persistent store directory (`identity.key` + `trust.store`).
    pub data_dir: Option<PathBuf>,
    /// In-memory Identity Key; do not write files.
    pub temp: bool,
    /// Password for the file key store. Also read from `P2P_PASSWORD`.
    pub password: Option<String>,
    /// Custom Relay URL.
    pub relay: Option<String>,
    /// Opt in to n0 public relays.
    pub n0_public: bool,
}

/// What kind of argument a flag is.
#[derive(Debug, Clone, Copy, PartialEq, Eq)]
pub enum FlagKind {
    /// A flag without a value; present means `true`.
    Switch,
    /// A flag with one text value.
    Value,
    /// A flag with one non-empty path value.
    Path,
}

/// One flag of the command line definition, as plain values.
#[derive(Debug, Clone, Copy, PartialEq, Eq)]
pub struct FlagDef {
    /// The id the flag's value is found under.
    pub id: &'static str,
    /// The long name, written `--long`.
    pub long: &'static str,
    /// The help line.
    pub help: &'static str,
    /// The value's placeholder in the help text.
    pub value_name: Option<&'static str>,
    /// Switch, text value or path value.
    pub kind: FlagKind,
    /// The id of a flag that may not appear together with this one.
    pub conflicts_with: Option<&'static str>,
    /// The environment variable the value is read from when the flag is absent.
    pub env: Option<&'static str>,
}

/// The flags a clap `Command` defines, in the order they were added (each
/// added by the `command_with_*` calls here, none with a default value).
pub uninterp spec fn command_flags(cmd: Command) -> Seq<FlagDef>;

/// The ids whose value in a clap match came from the command line or the
/// environment (not from a default).
pub uninterp spec fn present_ids(m: ArgMatches) -> Set<Seq<char>>;

/// The text values of a clap match: each id whose first value is text,
/// mapped to that text.
pub uninterp spec fn matched_text(m: ArgMatches) -> Map<Seq<char>, Seq<char>>;

/// The switch values of a clap match: each id whose first value is a `bool`,
/// mapped to it.
pub uninterp spec fn matched_bools(m: ArgMatches) -> Map<Seq<char>, bool>;

/// The path `PathBuf::from` makes of a text.
pub uninterp spec fn path_of(text: Seq<char>) -> PathBuf;

/// Whether flag `d` names `id` as one it may not appear with.
pub open spec fn conflicts(d: FlagDef, id: Seq<char>) -> bool {
    d.conflicts_with matches Some(c) && c@ == id
}

/// A definition that clap accepts without a panic: ids and long names are
/// unique and not `help` (clap's own flag), a long name is non-empty and does
/// not start with `-`, and a conflict names another flag of the definition.
pub open spec fn well_formed(defs: Seq<FlagDef>) -> bool {
    &&& forall|i: int, j: int|
        0 <= i < defs.len() && 0 <= j < defs.len() && i != j ==> #[trigger] defs[i].id@ != #[trigger] defs[j].id@
            && defs[i].long@ != defs[j].long@
    &&& forall|i: int|
        0 <= i < defs.len() ==> {
            &&& #[trigger] defs[i].long@.len() > 0
            &&& defs[i].long@[0] != '-'
            &&& defs[i].id@ != "help"@
            &&& defs[i].long@ != "help"@
            &&& defs[i].conflicts_with matches Some(c) ==> c@ != defs[i].id@ && exists|j: int|
                0 <= j < defs.len() && #[trigger] defs[j].id@ == c@
        }
}

/// `Command::new(name).about(about)`: a definition without flags.
#[verifier::external_body]
fn command_new(name: &'static str, about: &'static str) -> (cmd: Command)
    ensures
        command_flags(cmd) == Seq::<FlagDef>::empty(),
{
    Command::new(name).about(about)
}

/// `Command::arg` with the switch `def` (`ArgAction::SetTrue`): it is added
/// after the flags already there.
#[verifier::external_body]
fn command_with_switch(cmd: Command, def: FlagDef) -> (res: Command)
    requires
        def.kind == FlagKind::Switch,
    ensures
        command_flags(res) == command_flags(cmd).push(def),
{
    cmd.arg(
        Arg::new(def.id).long(def.long).help(def.help).value_name(def.value_name).action(
            ArgAction::SetTrue,
        ).conflicts_with_all(def.conflicts_with).env(def.env),
    )
}

/// `Command::arg` with the one-value flag `def` (`ArgAction::Set`): it is
/// added after the flags already there.
#[verifier::external_body]
fn command_with_value(cmd: Command, def: FlagDef) -> (res: Command)
    requires
        def.kind == FlagKind::Value,
    ensures
        command_flags(res) == command_flags(cmd).push(def),
{
    cmd.arg(
        Arg::new(def.id).long(def.long).help(def.help).value_name(def.value_name).action(
            ArgAction::Set,
        ).conflicts_with_all(def.conflicts_with).env(def.env),
    )
}

/// `Command::arg` with the one-path flag `def` (`ArgAction::Set` with
/// `NonEmptyStringValueParser`, which refuses an empty value as
/// `PathBufValueParser` does): it is added after the flags already there.
#[verifier::external_body]
fn command_with_path(cmd: Command, def: FlagDef) -> (res: Command)
    requires
        def.kind == FlagKind::Path,
    ensures
        command_flags(res) == command_flags(cmd).push(def),
{
    cmd.arg(
        Arg::new(def.id).long(def.long).help(def.help).value_name(def.value_name).action(
            ArgAction::Set,
        ).value_parser(clap::builder::NonEmptyStringValueParser::new()).conflicts_with_all(
            def.conflicts_with,
        ).env(def.env),
    )
}

/// `Command::try_get_matches_from`: match the words of a command line,
/// program name first, against the definition. Two flags of which one names
/// the other in `conflicts_with` are never both present in a match. The flags
/// defined here carry no default value, so a text value is only there when it
/// was given on the command line or in the environment, and a switch only
/// holds `true` then (its default is `false`). Long names are matched
/// exactly: a switch is given as the word `--long`, and a value as the word
/// `--long` followed by the value, or as the word `--long=value`; the first
/// word is the program name. A refusal
/// is rendered with `Error::render`, `Error::exit_code` and `Error::use_stderr`.
#[verifier::external_body]
fn matches_from(cmd: Command, argv: Vec<String>) -> (res: Result<ArgMatches, CliError>)
    requires
        well_formed(command_flags(cmd)),
    ensures
        res matches Ok(m) ==> forall|i: int, j: int|
            #![trigger command_flags(cmd)[i], command_flags(cmd)[j]]
            0 <= i < command_flags(cmd).len() && 0 <= j < command_flags(cmd).len() && conflicts(
                command_flags(cmd)[i],
                command_flags(cmd)[j].id@,
            ) ==> !(present_ids(m).contains(command_flags(cmd)[i].id@) && present_ids(m).contains(
                command_flags(cmd)[j].id@,
            )),
        res matches Ok(m) ==> forall|i: int|
            #![trigger command_flags(cmd)[i]]
            0 <= i < command_flags(cmd).len() ==> {
                let d = command_flags(cmd)[i];
                &&& d.kind != FlagKind::Switch && matched_text(m).contains_key(d.id@) ==> present_ids(
                    m,
                ).contains(d.id@)
                &&& d.kind == FlagKind::Switch && matched_bools(m).contains_key(d.id@) && matched_bools(
                    m,
                )[d.id@] ==> present_ids(m).contains(d.id@)
            },
        res matches Ok(m) ==> forall|i: int|
            #![trigger command_flags(cmd)[i]]
            0 <= i < command_flags(cmd).len() ==> {
                let d = command_flags(cmd)[i];
                &&& d.kind == FlagKind::Switch && d.env is None && switch_on(m, d.id@) ==> gave_switch(
                    views(argv@),
                    d.long@,
                )
                &&& d.kind != FlagKind::Switch && d.env is None && matched_text(m).contains_key(d.id@)
                    ==> gave_value(views(argv@), d.long@, matched_text(m)[d.id@])
            },
{
    match cmd.try_get_matches_from(argv) {
        Ok(m) => Ok(m),
        Err(e) => Err(CliError {
            message: e.render().to_string(),
            exit_code: e.exit_code(),
            to_stderr: e.use_stderr(),
        }),
    }
}

/// `ArgMatches::try_get_one::<String>`: the text matched for `id`, if any
/// (none when `id` is unknown, not text, or has no value).
#[verifier::external_body]
fn matched_string(m: &ArgMatches, id: &'static str) -> (res: Option<String>)
    ensures
        res is Some <==> matched_text(*m).contains_key(id@),
        res matches Some(t) ==> t@ == matched_text(*m)[id@],
{
    m.try_get_one::<String>(id).ok().flatten().cloned()
}

/// `ArgMatches::try_get_one::<bool>`: the value of the switch `id`, if any
/// (none when `id` is unknown or not a switch).
#[verifier::external_body]
fn matched_switch(m: &ArgMatches, id: &'static str) -> (res: Option<bool>)
    ensures
        res is Some <==> matched_bools(*m).contains_key(id@),
        res matches Some(b) ==> b == matched_bools(*m)[id@],
{
    m.try_get_one::<bool>(id).ok().flatten().copied()
}

/// `PathBuf::from`: the path of a text.
#[verifier::external_body]
fn path_from(text: String) -> (p: PathBuf)
    ensures
        p == path_of(text@),
{
    PathBuf::from(text)
}

/// Some word after the program name is `--long`.
pub open spec fn gave_switch(words: Seq<Seq<char>>, long: Seq<char>) -> bool {
    exists|k: int| 1 <= k < words.len() && #[trigger] words[k] == "--"@ + long
}

/// Some word after the program name is `--long` and the next is `v`, or
/// some word is `--long=v`.
pub open spec fn gave_value(words: Seq<Seq<char>>, long: Seq<char>, v: Seq<char>) -> bool {
    exists|k: int|
        1 <= k < words.len() && ((#[trigger] words[k] == "--"@ + long && k + 1 < words.len()
            && words[k + 1] == v) || words[k] == "--"@ + long + "="@ + v)
}

/// Whether the switch `id` holds `true` in `m`.
pub open spec fn switch_on(m: ArgMatches, id: Seq<char>) -> bool {
    matched_bools(m).contains_key(id) && matched_bools(m)[id]
}

/// `v` is the text matched for `id` in `m`, or none when there is none.
pub open spec fn text_field(v: Option<String>, m: ArgMatches, id: Seq<char>) -> bool {
    &&& (v is Some <==> matched_text(m).contains_key(id))
    &&& (v matches Some(t) ==> t@ == matched_text(m)[id])
}

/// `a` holds what the match `m` gives for the program's flags.
pub open spec fn args_match(a: Args, m: ArgMatches) -> bool {
    &&& (a.data_dir is Some <==> matched_text(m).contains_key("data_dir"@))
    &&& (a.data_dir matches Some(p) ==> p == path_of(matched_text(m)["data_dir"@]))
    &&& a.temp == switch_on(m, "temp"@)
    &&& text_field(a.password, m, "password"@)
    &&& text_field(a.relay, m, "relay"@)
    &&& a.n0_public == switch_on(m, "n0_public"@)
}

/// Whether the switch `id` holds `true` in `m`.
fn switch_given(m: &ArgMatches, id: &'static str) -> (given: bool)
    ensures
        given == switch_on(*m, id@),
{
    match matched_switch(m, id) {
        Some(b) => b,
        None => false,
    }
}

impl Args {
    /// The flags that the match `m` gives: the path and texts matched for
    /// `data_dir`, `password` and `relay`, and whether the switches `temp`
    /// and `n0_public` hold `true`.
    pub fn from_matches(m: &ArgMatches) -> (a: Args)
        ensures
            args_match(a, *m),
    {
        let data_dir = match matched_string(m, "data_dir") {
            Some(t) => Some(path_from(t)),
            None => None,
        };
        Args {
            data_dir,
            temp: switch_given(m, "temp"),
            password: matched_string(m, "password"),
            relay: matched_string(m, "relay"),
            n0_public: switch_given(m, "n0_public"),
        }
    }
}

/// `d` has these fields.
pub open spec fn flag_is(
    d: FlagDef,
    id: &str,
    long: &str,
    help: &str,
    value_name: Option<&str>,
    kind: FlagKind,
    conflicts_with: Option<&str>,
    env: Option<&str>,
) -> bool {
    &&& d.id@ == id@
    &&& d.long@ == long@
    &&& d.help@ == help@
    &&& (d.value_name matches Some(v) <==> value_name is Some)
    &&& (d.value_name matches Some(v) ==> v@ == value_name->Some_0@)
    &&& d.kind == kind
    &&& (d.conflicts_with is Some <==> conflicts_with is Some)
    &&& (d.conflicts_with matches Some(c) ==> c@ == conflicts_with->Some_0@)
    &&& (d.env is Some <==> env is Some)
    &&& (d.env matches Some(e) ==> e@ == env->Some_0@)
}

/// The program's flags: `--data-dir <DATA_DIR>` (a path; excludes
/// `--temp`), `--temp` (excludes `--data-dir`), `--password <PASSWORD>`
/// (falls back to `P2P_PASSWORD`), `--relay <RELAY>` (excludes
/// `--n0-public`) and `--n0-public` (excludes `--relay`).
pub open spec fn is_cli_definition(defs: Seq<FlagDef>) -> bool {
    &&& defs.len() == 5
    &&& flag_is(defs[0], "data_dir", "data-dir", DATA_DIR_HELP, Some("DATA_DIR"), FlagKind::Path, Some("temp"), None)
    &&& flag_is(defs[1], "temp", "temp", TEMP_HELP, None, FlagKind::Switch, Some("data_dir"), None)
    &&& flag_is(defs[2], "password", "password", PASSWORD_HELP, Some("PASSWORD"), FlagKind::Value, None, Some("P2P_PASSWORD"))
    &&& flag_is(defs[3], "relay", "relay", RELAY_HELP, Some("RELAY"), FlagKind::Value, Some("n0_public"), None)
    &&& flag_is(defs[4], "n0_public", "n0-public", N0_PUBLIC_HELP, None, FlagKind::Switch, Some("relay"), None)
}

/// Help line of `--data-dir`.
pub const DATA_DIR_HELP: &'static str = "Persistent store directory (`identity.key` + `trust.store`)";
/// Help line of `--temp`.
pub const TEMP_HELP: &'static str = "In-memory Identity Key; do not write files";
/// Help line of `--password`.
pub const PASSWORD_HELP: &'static str = "Password for FileKeyStore. Also reads `P2P_PASSWORD`";
/// Help line of `--relay`.
pub const RELAY_HELP: &'static str = "Custom Relay URL";
/// Help line of `--n0-public`.
pub const N0_PUBLIC_HELP: &'static str = "Opt in to n0 public relays";

/// The program's definition is one that clap accepts.
proof fn lemma_cli_definition_well_formed(defs: Seq<FlagDef>)
    requires
        is_cli_definition(defs),
    ensures
        well_formed(defs),
{
    reveal_strlit("data_dir");
    reveal_strlit("temp");
    reveal_strlit("password");
    reveal_strlit("relay");
    reveal_strlit("n0_public");
    reveal_strlit("data-dir");
    reveal_strlit("n0-public");
    reveal_strlit("help");
    assert forall|i: int, j: int|
        0 <= i < defs.len() && 0 <= j < defs.len() && i != j implies #[trigger] defs[i].id@ != #[trigger] defs[j].id@
            && defs[i].long@ != defs[j].long@ by {
        assert(defs[i].id@.len() != defs[j].id@.len() || defs[i].id@[0] != defs[j].id@[0]);
        assert(defs[i].long@.len() != defs[j].long@.len() || defs[i].long@[0] != defs[j].long@[0]);
    }
    assert forall|i: int| 0 <= i < defs.len() implies {
        &&& #[trigger] defs[i].long@.len() > 0
        &&& defs[i].long@[0] != '-'
        &&& defs[i].id@ != "help"@
        &&& defs[i].long@ != "help"@
        &&& defs[i].conflicts_with matches Some(c) ==> c@ != defs[i].id@ && exists|j: int|
            0 <= j < defs.len() && #[trigger] defs[j].id@ == c@
    } by {
        assert("help"@.len() == 4 && "help"@[0] == 'h');
        assert(defs[i].id@.len() != 4 || defs[i].id@[0] != 'h');
        if i == 0 {
            assert(defs[1].id@ == "temp"@);
        } else if i == 1 {
            assert(defs[0].id@ == "data_dir"@);
        } else if i == 3 {
            assert(defs[4].id@ == "n0_public"@);
        } else if i == 4 {
            assert(defs[3].id@ == "relay"@);
        }
    }
}

/// The command line definition of the program (see [`is_cli_definition`]).
fn command() -> (cmd: Command)
    ensures
        is_cli_definition(command_flags(cmd)),
{
    let cmd = command_new("p2p-chat", "Startup flags for p2p-chat. REPL is Ticket 3");
    let cmd = command_with_path(
        cmd,
        FlagDef {
            id: "data_dir",
            long: "data-dir",
            help: DATA_DIR_HELP,
            value_name: Some("DATA_DIR"),
            kind: FlagKind::Path,
            conflicts_with: Some("temp"),
            env: None,
        },
    );
    let cmd = command_with_switch(
        cmd,
        FlagDef {
            id: "temp",
            long: "temp",
            help: TEMP_HELP,
            value_name: None,
            kind: FlagKind::Switch,
            conflicts_with: Some("data_dir"),
            env: None,
        },
    );
    let cmd = command_with_value(
        cmd,
        FlagDef {
            id: "password",
            long: "password",
            help: PASSWORD_HELP,
            value_name: Some("PASSWORD"),
            kind: FlagKind::Value,
            conflicts_with: None,
            env: Some("P2P_PASSWORD"),
        },
    );
    let cmd = command_with_value(
        cmd,
        FlagDef {
            id: "relay",
            long: "relay",
            help: RELAY_HELP,
            value_name: Some("RELAY"),
            kind: FlagKind::Value,
            conflicts_with: Some("n0_public"),
            env: None,
        },
    );
    command_with_switch(
        cmd,
        FlagDef {
            id: "n0_public",
            long: "n0-public",
            help: N0_PUBLIC_HELP,
            value_name: None,
            kind: FlagKind::Switch,
            conflicts_with: Some("relay"),
            env: None,
        },
    )
}

impl Args {
    /// Parse the words of a command line, program name first, against the
    /// program's flags (see [`is_cli_definition`]): the flags are what clap's
    /// match gives (see [`Args::from_matches`]), `--password` falling back to
    /// `P2P_PASSWORD`. `--temp` and `--n0-public` are only set when given as
    /// words; `--relay` and `--data-dir` only hold a value given after them,
    /// as the next word or after `=`. `--data-dir` never comes back together
    /// with `--temp`, nor `--relay` with `--n0-public`.
    pub fn try_parse_from(argv: &[&str]) -> (res: Result<Args, CliError>)
        ensures
            res matches Ok(a) ==> exists|m: ArgMatches| #[trigger] args_match(a, m),
            res matches Ok(a) ==> !(a.data_dir is Some && a.temp) && !(a.relay is Some && a.n0_public),
            res matches Ok(a) ==> (a.temp ==> gave_switch(str_views(argv@), "temp"@)),
            res matches Ok(a) ==> (a.n0_public ==> gave_switch(str_views(argv@), "n0-public"@)),
            res matches Ok(a) ==> (a.relay matches Some(u) ==> gave_value(str_views(argv@), "relay"@, u@)),
            res matches Ok(a) ==> (a.data_dir matches Some(p) ==> exists|t: Seq<char>|
                p == path_of(t) && #[trigger] gave_value(str_views(argv@), "data-dir"@, t)),
    {
        let words = command_words(argv);
        let cmd = command();
        let ghost defs = command_flags(cmd);
        proof {
            lemma_cli_definition_well_formed(defs);
        }
        let m = matches_from(cmd, words)?;
        let args = Args::from_matches(&m);
        proof {
            assert(conflicts(defs[0], defs[1].id@));
            assert(conflicts(defs[3], defs[4].id@));
            assert(args_match(args, m));
            assert(defs[0].long@ == "data-dir"@);
            assert(defs[1].long@ == "temp"@);
            assert(defs[3].long@ == "relay"@);
            assert(defs[4].long@ == "n0-public"@);
            if args.data_dir is Some {
                assert(gave_value(str_views(argv@), "data-dir"@, matched_text(m)["data_dir"@]));
            }
        }
        Ok(args)
    }
}

/// The views of a list of string slices.
pub open spec fn str_views(v: Seq<&str>) -> Seq<Seq<char>> {
    v.map_values(|s: &str| s@)
}

/// The words of a command line as owned strings, in order.
pub fn command_words(argv: &[&str]) -> (words: Vec<String>)
    ensures
        views(words@) == str_views(argv@),
{
    let mut words: Vec<String> = Vec::new();
    let mut i: usize = 0;
    while i < argv.len()
        invariant
            i <= argv@.len(),
            words@.len() == i,
            forall|j: int| 0 <= j < i ==> #[trigger] words@[j]@ == argv@[j]@,
        decreases argv@.len() - i,
    {
        words.push(argv[i].to_owned());
        i = i + 1;
    }
    assert(views(words@) =~= str_views(argv@));
    words
}

/// Whether the password has to be asked for on the terminal: a data
/// directory is in use and no password came from the flags or environment.
pub fn needs_password_prompt(args: &Args) -> (ask: bool)
    ensures
        ask == (args.data_dir is Some && args.password is None),
{
    args.data_dir.is_some() && args.password.is_none()
}

/// The production n0 relays of iroh 1.1.0, in order.
pub open spec fn n0_relays() -> Seq<Seq<char>> {
    seq![
        "https://use1-1.relay.n0.iroh.link."@,
        "https://usw1-1.relay.n0.iroh.link."@,
        "https://euc1-1.relay.n0.iroh.link."@,
        "https://aps1-1.relay.n0.iroh.link."@,
    ]
}

/// The views of a list of strings.
pub open spec fn views(v: Seq<String>) -> Seq<Seq<char>> {
    v.map_values(|s: String| s@)
}

/// iroh 1.1.0 production n0 relays (`iroh::defaults::prod`).
pub fn n0_public_relay_urls() -> (urls: Vec<String>)
    ensures
        views(urls@) == n0_relays(),
{
    let mut urls: Vec<String> = Vec::new();
    urls.push("https://use1-1.relay.n0.iroh.link.".to_owned());
    urls.push("https://usw1-1.relay.n0.iroh.link.".to_owned());
    urls.push("https://euc1-1.relay.n0.iroh.link.".to_owned());
    urls.push("https://aps1-1.relay.n0.iroh.link.".to_owned());
    assert(views(urls@) =~= n0_relays());
    urls
}

/// The Relay URLs to hand to each dial: the n0 relays with `--n0-public`,
/// the `--relay` URL if one was given, otherwise none.
pub open spec fn dial_relays(args: Args) -> Seq<Seq<char>> {
    if args.n0_public {
        n0_relays()
    } else {
        match args.relay {
            Some(url) => seq![url@],
            None => Seq::empty(),
        }
    }
}

/// Relay URLs to pass as dial hints.
pub fn dial_relay_urls(args: &Args) -> (urls: Vec<String>)
    ensures
        views(urls@) == dial_relays(*args),
{
    if args.n0_public {
        n0_public_relay_urls()
    } else {
        let mut urls: Vec<String> = Vec::new();
        match &args.relay {
            Some(url) => {
                urls.push(url.clone());
            },
            None => {},
        }
        assert(views(urls@) =~= dial_relays(*args));
        urls
    }
}

/// Whether dials carry Relay hints: only when there are Relay URLs.
pub fn relay_hints(urls: &Vec<String>) -> (hints: bool)
    ensures
        hints == (urls@.len() > 0),
{
    urls.len() > 0
}

} // verus!
