//! Slash Command and chat-line parser for the REPL.

use vstd::prelude::*;
use vstd::string::StringSliceAdditionalSpecFns;
use crate::store::{
    PeerId, hex_of, lemma_peer_id_hex_round_trip, parse_peer_hex, peer_id_from_hex, upper_hex_char,
};
use crate::text::{
    push_str, string_of, chars_of, is_white_space, is_whitespace, lead_count, lemma_lead_count, lemma_lead_count_bounds,
    lemma_trail_ws, lemma_trail_ws_bounds, lemma_trim_nonempty, range_equals, string_from_range, trail_ws, trim,
    trim_bounds,
};

verus! {

/// One line of REPL input after parsing.
#[derive(Debug, Clone, PartialEq, Eq)]
pub enum UserInput {
    Message(String),
    Dial(PeerId),
    Sas,
    Verify,
    Info,
    Close,
    Help,
    Quit,
}

/// Why a line is not a valid Slash Command.
#[derive(Debug, Clone, PartialEq, Eq)]
pub enum ParseError {
    UnknownCommand(String),
    DialUsage,
    ExtraArgs(&'static str),
    InvalidPeerId,
}

/// What a parsed line means, as mathematical values.
pub enum InputModel {
    Message(Seq<char>),
    Dial(Seq<u8>),
    Sas,
    Verify,
    Info,
    Close,
    Help,
    Quit,
}

/// A parse error, as mathematical values.
pub enum ParseErrorModel {
    UnknownCommand(Seq<char>),
    DialUsage,
    ExtraArgs(Seq<char>),
    InvalidPeerId,
}

impl View for UserInput {
    type V = InputModel;

    open spec fn view(&self) -> InputModel {
        match self {
            UserInput::Message(s) => InputModel::Message(s@),
            UserInput::Dial(p) => InputModel::Dial(p@),
            UserInput::Sas => InputModel::Sas,
            UserInput::Verify => InputModel::Verify,
            UserInput::Info => InputModel::Info,
            UserInput::Close => InputModel::Close,
            UserInput::Help => InputModel::Help,
            UserInput::Quit => InputModel::Quit,
        }
    }
}

impl View for ParseError {
    type V = ParseErrorModel;

    open spec fn view(&self) -> ParseErrorModel {
        match self {
            ParseError::UnknownCommand(s) => ParseErrorModel::UnknownCommand(s@),
            ParseError::DialUsage => ParseErrorModel::DialUsage,
            ParseError::ExtraArgs(s) => ParseErrorModel::ExtraArgs(s@),
            ParseError::InvalidPeerId => ParseErrorModel::InvalidPeerId,
        }
    }
}

/// The meaning of a parse outcome.
pub open spec fn outcome(r: Result<Option<UserInput>, ParseError>) -> Result<
    Option<InputModel>,
    ParseErrorModel,
> {
    match r {
        Ok(Some(u)) => Ok(Some(u@)),
        Ok(None) => Ok(None),
        Err(e) => Err(e@),
    }
}

/// A command that takes no argument: its value, or `ExtraArgs(name)`.
pub open spec fn no_arg_spec(name: Seq<char>, arg: Seq<char>, value: InputModel) -> Result<
    Option<InputModel>,
    ParseErrorModel,
> {
    if arg.len() == 0 {
        Ok(Some(value))
    } else {
        Err(ParseErrorModel::ExtraArgs(name))
    }
}

/// The command word after `/`: everything up to the first white space.
pub open spec fn command_word(rest: Seq<char>) -> Seq<char> {
    rest.take(lead_count(rest, false) as int)
}

/// The argument after the command word: what follows the first white-space
/// character, trimmed; empty when there is no white space.
pub open spec fn command_arg(rest: Seq<char>) -> Seq<char> {
    let k = lead_count(rest, false);
    if k < rest.len() {
        trim(rest.skip(k + 1int))
    } else {
        Seq::empty()
    }
}

/// What a command word and its argument mean.
pub open spec fn parse_command(cmd: Seq<char>, arg: Seq<char>) -> Result<
    Option<InputModel>,
    ParseErrorModel,
> {
    if cmd == seq!['d', 'i', 'a', 'l'] {
        if arg.len() == 0 {
            Err(ParseErrorModel::DialUsage)
        } else {
            match parse_peer_hex(vstd::utf8::encode_utf8(arg)) {
                Some(bytes) => Ok(Some(InputModel::Dial(bytes))),
                None => Err(ParseErrorModel::InvalidPeerId),
            }
        }
    } else if cmd == seq!['s', 'a', 's'] {
        no_arg_spec(cmd, arg, InputModel::Sas)
    } else if cmd == seq!['v', 'e', 'r', 'i', 'f', 'y'] {
        no_arg_spec(cmd, arg, InputModel::Verify)
    } else if cmd == seq!['i', 'n', 'f', 'o'] {
        no_arg_spec(cmd, arg, InputModel::Info)
    } else if cmd == seq!['c', 'l', 'o', 's', 'e'] {
        no_arg_spec(cmd, arg, InputModel::Close)
    } else if cmd == seq!['h', 'e', 'l', 'p'] {
        no_arg_spec(cmd, arg, InputModel::Help)
    } else if cmd == seq!['q', 'u', 'i', 't'] || cmd == seq!['e', 'x', 'i', 't'] {
        no_arg_spec(seq!['q', 'u', 'i', 't'], arg, InputModel::Quit)
    } else {
        Err(ParseErrorModel::UnknownCommand(cmd))
    }
}

/// What a REPL line means. The line is trimmed; an empty line means nothing;
/// a line starting with `/` is a Slash Command; anything else is chat text.
pub open spec fn parse_line_spec(line: Seq<char>) -> Result<Option<InputModel>, ParseErrorModel> {
    let t = trim(line);
    if t.len() == 0 {
        Ok(None)
    } else if t[0] != '/' {
        Ok(Some(InputModel::Message(t)))
    } else {
        parse_command(command_word(t.drop_first()), command_arg(t.drop_first()))
    }
}

fn no_arg(cmd: &'static str, arg_empty: bool, value: UserInput) -> (res: Result<
    Option<UserInput>,
    ParseError,
>)
    ensures
        arg_empty ==> res == Ok::<Option<UserInput>, ParseError>(Some(value)),
        !arg_empty ==> res == Err::<Option<UserInput>, ParseError>(ParseError::ExtraArgs(cmd)),
{
    if arg_empty {
        Ok(Some(value))
    } else {
        Err(ParseError::ExtraArgs(cmd))
    }
}

/// Decide what the command word `v[lo..hi]` with argument `v[a0..a1]` means.
fn parse_command_exec(v: &Vec<char>, lo: usize, hi: usize, a0: usize, a1: usize) -> (res: Result<
    Option<UserInput>,
    ParseError,
>)
    requires
        lo <= hi <= v@.len(),
        a0 <= a1 <= v@.len(),
    ensures
        outcome(res) == parse_command(
            v@.subrange(lo as int, hi as int),
            v@.subrange(a0 as int, a1 as int),
        ),
{
    proof {
        reveal_strlit("dial");
        reveal_strlit("sas");
        reveal_strlit("verify");
        reveal_strlit("info");
        reveal_strlit("close");
        reveal_strlit("help");
        reveal_strlit("quit");
        reveal_strlit("exit");
        assert("dial"@ =~= seq!['d', 'i', 'a', 'l']);
        assert("sas"@ =~= seq!['s', 'a', 's']);
        assert("verify"@ =~= seq!['v', 'e', 'r', 'i', 'f', 'y']);
        assert("info"@ =~= seq!['i', 'n', 'f', 'o']);
        assert("close"@ =~= seq!['c', 'l', 'o', 's', 'e']);
        assert("help"@ =~= seq!['h', 'e', 'l', 'p']);
        assert("quit"@ =~= seq!['q', 'u', 'i', 't']);
        assert("exit"@ =~= seq!['e', 'x', 'i', 't']);
    }
    let ghost arg_chars = v@.subrange(a0 as int, a1 as int);
    let arg_empty = a0 == a1;
    if range_equals(v, lo, hi, "dial") {
        if arg_empty {
            return Err(ParseError::DialUsage);
        }
        let arg = string_from_range(v, a0, a1);
        let arg_str = arg.as_str();
        assert(arg_str.spec_bytes() == vstd::utf8::encode_utf8(arg_chars));
        match peer_id_from_hex(arg_str) {
            Some(peer) => Ok(Some(UserInput::Dial(peer))),
            None => Err(ParseError::InvalidPeerId),
        }
    } else if range_equals(v, lo, hi, "sas") {
        no_arg("sas", arg_empty, UserInput::Sas)
    } else if range_equals(v, lo, hi, "verify") {
        no_arg("verify", arg_empty, UserInput::Verify)
    } else if range_equals(v, lo, hi, "info") {
        no_arg("info", arg_empty, UserInput::Info)
    } else if range_equals(v, lo, hi, "close") {
        no_arg("close", arg_empty, UserInput::Close)
    } else if range_equals(v, lo, hi, "help") {
        no_arg("help", arg_empty, UserInput::Help)
    } else if range_equals(v, lo, hi, "quit") || range_equals(v, lo, hi, "exit") {
        no_arg("quit", arg_empty, UserInput::Quit)
    } else {
        Err(ParseError::UnknownCommand(string_from_range(v, lo, hi)))
    }
}

/// Parse one REPL line.
///
/// Empty input is `Ok(None)` (ignore). Slash lines are commands; anything else
/// is chat text.
pub fn parse_line(line: &str) -> (res: Result<Option<UserInput>, ParseError>)
    ensures
        outcome(res) == parse_line_spec(line@),
{
    let v = chars_of(line);
    let (s, e) = trim_bounds(&v, 0, v.len());
    let ghost t = trim(line@);
    assert(v@.subrange(0, v@.len() as int) == line@);
    if s == e {
        return Ok(None);
    }
    if v[s] != '/' {
        return Ok(Some(UserInput::Message(string_from_range(&v, s, e))));
    }
    let rs = s + 1;
    let ghost rest = t.drop_first();
    assert(rest =~= v@.subrange(rs as int, e as int));
    let mut k = rs;
    while k < e && !is_whitespace(v[k])
        invariant
            rs <= k <= e <= v@.len(),
            forall|j: int| rs <= j < k ==> !is_white_space(#[trigger] v@[j]),
        decreases e - k,
    {
        k = k + 1;
    }
    proof {
        assert forall|j: int| 0 <= j < k - rs implies is_white_space(#[trigger] rest[j]) == false by {
            assert(rest[j] == v@[rs + j]);
        }
        if k < e {
            assert(rest[k - rs] == v@[k as int]);
        }
        lemma_lead_count(rest, false, k - rs);
        assert(command_word(rest) =~= v@.subrange(rs as int, k as int));
    }
    let (a0, a1) = if k < e {
        let r = trim_bounds(&v, k + 1, e);
        assert(rest.skip(k - rs + 1) =~= v@.subrange(k + 1, e as int));
        r
    } else {
        (e, e)
    };
    assert(command_arg(rest) =~= v@.subrange(a0 as int, a1 as int));
    assert(t.len() > 0 && t[0] == '/');
    parse_command_exec(&v, rs, k, a0, a1)
}

/// The text that `/help` prints.
pub const HELP: &'static str = "/dial <peer-id>  connect to a Remote Peer (64 hex)
/sas             show SAS Display
/verify          mark Remote Peer Verified
/info            Chat Session status and Trust State
/close           end Chat Session
/help            show this help
/quit, /exit     exit";

/// Text that neither starts nor ends with white space is its own trim.
pub proof fn lemma_trim_of_trimmed(s: Seq<char>)
    requires
        s.len() > 0 ==> !is_white_space(s[0]) && !is_white_space(s.last()),
    ensures
        trim(s) == s,
{
    lemma_lead_count(s, true, 0);
    assert(s.skip(0) =~= s);
    lemma_trail_ws(s, 0);
    assert(s.take(s.len() as int) =~= s);
}

/// Trimming twice is trimming once.
pub proof fn lemma_trim_idempotent(s: Seq<char>)
    ensures
        trim(trim(s)) == trim(s),
{
    let a = lead_count(s, true);
    lemma_lead_count_bounds(s, true);
    let t = s.skip(a as int);
    lemma_trail_ws_bounds(t);
    let r = trim(s);
    if r.len() > 0 {
        assert(r[0] == t[0]);
        assert(r.last() == t[t.len() - trail_ws(t) - 1]);
    }
    lemma_trim_of_trimmed(r);
}

/// A line means the same as the line trimmed.
pub proof fn lemma_parse_line_trimmed(line: Seq<char>)
    ensures
        parse_line_spec(trim(line)) == parse_line_spec(line),
{
    lemma_trim_idempotent(line);
}

/// `/dial` followed by the hex of a Peer ID, in lower or upper case, dials
/// that Peer ID.
pub proof fn lemma_parse_dial_hex(id: PeerId, upper: bool)
    ensures
        ({
            let hex = if upper { hex_of(id@).map_values(|c: char| upper_hex_char(c)) } else { hex_of(id@) };
            parse_line_spec(seq!['/', 'd', 'i', 'a', 'l', ' '] + hex) == Ok::<
                Option<InputModel>,
                ParseErrorModel,
            >(Some(InputModel::Dial(id@)))
        }),
{
    let hex = if upper { hex_of(id@).map_values(|c: char| upper_hex_char(c)) } else { hex_of(id@) };
    let line = seq!['/', 'd', 'i', 'a', 'l', ' '] + hex;
    assert(hex.len() == 64);
    let last = hex[63];
    assert(last == line.last());
    assert(id@[31] % 16 < 16);
    assert(!is_white_space(last));
    lemma_trim_of_trimmed(line);
    let rest = line.drop_first();
    assert(rest[4] == ' ');
    assert forall|j: int| 0 <= j < 4 implies is_white_space(#[trigger] rest[j]) == false by {}
    lemma_lead_count(rest, false, 4);
    assert(command_word(rest) =~= seq!['d', 'i', 'a', 'l']);
    assert(rest.skip(5) =~= hex);
    assert(hex[0] == line[6]);
    assert(id@[0] / 16 < 16);
    lemma_trim_of_trimmed(hex);
    lemma_peer_id_hex_round_trip(id, upper);
}

/// The pieces of a Slash Command line `/` + `w` + ` ` + `a`, where the
/// command word `w` holds no white space and the argument `a` holds some
/// character that is not white space: the line trims to a slash line whose
/// command word is `w` and whose argument is not empty.
proof fn lemma_slash_line_with_argument(w: Seq<char>, a: Seq<char>, i: int)
    requires
        forall|j: int| 0 <= j < w.len() ==> !is_white_space(#[trigger] w[j]),
        0 <= i < a.len(),
        !is_white_space(a[i]),
    ensures
        ({
            let t = trim(seq!['/'] + w + seq![' '] + a);
            &&& t.len() > 0
            &&& t[0] == '/'
            &&& command_word(t.drop_first()) == w
            &&& command_arg(t.drop_first()).len() > 0
        }),
{
    let line = seq!['/'] + w + seq![' '] + a;
    let off = w.len() + 2;
    assert(line.len() == off + a.len());
    assert forall|j: int| 0 <= j < a.len() implies #[trigger] line[off + j] == a[j] by {}
    lemma_trail_ws_bounds(a);
    let k = trail_ws(a) as int;
    if k == a.len() {
        assert(is_white_space(a[i]));
    }
    assert forall|j: int| line.len() - k <= j < line.len() implies is_white_space(#[trigger] line[j]) by {
        assert(line[off + (j - off)] == a[j - off]);
    }
    assert(line[line.len() - k - 1] == a[a.len() - k - 1]);
    lemma_trail_ws(line, k);
    assert(line[0] == '/');
    lemma_lead_count(line, true, 0);
    assert(line.skip(0) =~= line);
    let t = trim(line);
    assert(t =~= line.take(line.len() - k));
    let a2 = a.take(a.len() - k);
    let rest = t.drop_first();
    assert(rest =~= w + seq![' '] + a2);
    assert forall|j: int| 0 <= j < w.len() implies is_white_space(#[trigger] rest[j]) == false by {
        assert(rest[j] == w[j]);
    }
    assert(rest[w.len() as int] == ' ');
    lemma_lead_count(rest, false, w.len() as int);
    assert(command_word(rest) =~= w);
    assert(rest.skip(w.len() + 1int) =~= a2);
    assert(a2[a.len() - k - 1] == a[a.len() - k - 1]);
    lemma_trim_nonempty(a2, a.len() - k - 1);
}

/// A bare Slash Command line `/` + `w`, with `w` a word without white space:
/// its command word is `w` and it has no argument.
proof fn lemma_bare_slash_line(w: Seq<char>)
    requires
        w.len() > 0,
        forall|j: int| 0 <= j < w.len() ==> !is_white_space(#[trigger] w[j]),
    ensures
        ({
            let t = trim(seq!['/'] + w);
            &&& t.len() > 0
            &&& t[0] == '/'
            &&& command_word(t.drop_first()) == w
            &&& command_arg(t.drop_first()).len() == 0
        }),
{
    let line = seq!['/'] + w;
    assert(line.last() == w[w.len() - 1]);
    lemma_trim_of_trimmed(line);
    let rest = line.drop_first();
    assert(rest =~= w);
    lemma_lead_count(rest, false, w.len() as int);
    assert(rest.take(w.len() as int) =~= w);
}

/// A command that takes no argument refuses one: `/sas`, `/verify`, `/info`,
/// `/close` and `/help` followed by a space and any argument that is not all
/// white space are the error "`/w` takes no arguments" for that very word,
/// never the command itself.
pub proof fn lemma_no_arg_commands_refuse_arguments(w: Seq<char>, a: Seq<char>)
    requires
        w == seq!['s', 'a', 's'] || w == seq!['v', 'e', 'r', 'i', 'f', 'y'] || w == seq![
            'i',
            'n',
            'f',
            'o',
        ] || w == seq!['c', 'l', 'o', 's', 'e'] || w == seq!['h', 'e', 'l', 'p'],
        exists|i: int| 0 <= i < a.len() && !is_white_space(#[trigger] a[i]),
    ensures
        parse_line_spec(seq!['/'] + w + seq![' '] + a) == Err::<Option<InputModel>, ParseErrorModel>(
            ParseErrorModel::ExtraArgs(w),
        ),
{
    let i = choose|i: int| 0 <= i < a.len() && !is_white_space(#[trigger] a[i]);
    assert(forall|j: int| 0 <= j < w.len() ==> !is_white_space(#[trigger] w[j]));
    lemma_slash_line_with_argument(w, a, i);
    assert(w[0] != 'd' && w[0] != 'q' && w[0] != 'e');
}

/// `/quit` and `/exit` followed by a space and any argument that is not all
/// white space are the error "`/quit` takes no arguments".
pub proof fn lemma_quit_refuses_arguments(w: Seq<char>, a: Seq<char>)
    requires
        w == seq!['q', 'u', 'i', 't'] || w == seq!['e', 'x', 'i', 't'],
        exists|i: int| 0 <= i < a.len() && !is_white_space(#[trigger] a[i]),
    ensures
        parse_line_spec(seq!['/'] + w + seq![' '] + a) == Err::<Option<InputModel>, ParseErrorModel>(
            ParseErrorModel::ExtraArgs(seq!['q', 'u', 'i', 't']),
        ),
{
    let i = choose|i: int| 0 <= i < a.len() && !is_white_space(#[trigger] a[i]);
    assert(forall|j: int| 0 <= j < w.len() ==> !is_white_space(#[trigger] w[j]));
    lemma_slash_line_with_argument(w, a, i);
    assert(w[0] != 'd' && w[0] != 's' && w[0] != 'v' && w[0] != 'i' && w[0] != 'c' && w[0] != 'h');
}

/// Each command that takes no argument, given none, is that command:
/// `/sas`, `/verify`, `/info`, `/close`, `/help`, and `/quit` or `/exit`.
pub proof fn lemma_bare_commands()
    ensures
        parse_line_spec(seq!['/', 's', 'a', 's']) == Ok::<Option<InputModel>, ParseErrorModel>(
            Some(InputModel::Sas),
        ),
        parse_line_spec(seq!['/', 'v', 'e', 'r', 'i', 'f', 'y']) == Ok::<
            Option<InputModel>,
            ParseErrorModel,
        >(Some(InputModel::Verify)),
        parse_line_spec(seq!['/', 'i', 'n', 'f', 'o']) == Ok::<Option<InputModel>, ParseErrorModel>(
            Some(InputModel::Info),
        ),
        parse_line_spec(seq!['/', 'c', 'l', 'o', 's', 'e']) == Ok::<
            Option<InputModel>,
            ParseErrorModel,
        >(Some(InputModel::Close)),
        parse_line_spec(seq!['/', 'h', 'e', 'l', 'p']) == Ok::<Option<InputModel>, ParseErrorModel>(
            Some(InputModel::Help),
        ),
        parse_line_spec(seq!['/', 'q', 'u', 'i', 't']) == Ok::<Option<InputModel>, ParseErrorModel>(
            Some(InputModel::Quit),
        ),
        parse_line_spec(seq!['/', 'e', 'x', 'i', 't']) == Ok::<Option<InputModel>, ParseErrorModel>(
            Some(InputModel::Quit),
        ),
{
    let words = seq![
        seq!['s', 'a', 's'],
        seq!['v', 'e', 'r', 'i', 'f', 'y'],
        seq!['i', 'n', 'f', 'o'],
        seq!['c', 'l', 'o', 's', 'e'],
        seq!['h', 'e', 'l', 'p'],
        seq!['q', 'u', 'i', 't'],
        seq!['e', 'x', 'i', 't'],
    ];
    assert forall|k: int| 0 <= k < 7 implies ({
        let w = #[trigger] words[k];
        &&& w.len() > 0
        &&& forall|j: int| 0 <= j < w.len() ==> !is_white_space(#[trigger] w[j])
    }) by {}
    lemma_bare_slash_line(words[0]);
    assert(seq!['/'] + words[0] =~= seq!['/', 's', 'a', 's']);
    lemma_bare_slash_line(words[1]);
    assert(seq!['/'] + words[1] =~= seq!['/', 'v', 'e', 'r', 'i', 'f', 'y']);
    lemma_bare_slash_line(words[2]);
    assert(seq!['/'] + words[2] =~= seq!['/', 'i', 'n', 'f', 'o']);
    lemma_bare_slash_line(words[3]);
    assert(seq!['/'] + words[3] =~= seq!['/', 'c', 'l', 'o', 's', 'e']);
    lemma_bare_slash_line(words[4]);
    assert(seq!['/'] + words[4] =~= seq!['/', 'h', 'e', 'l', 'p']);
    lemma_bare_slash_line(words[5]);
    assert(seq!['/'] + words[5] =~= seq!['/', 'q', 'u', 'i', 't']);
    lemma_bare_slash_line(words[6]);
    assert(seq!['/'] + words[6] =~= seq!['/', 'e', 'x', 'i', 't']);
}

/// The text shown for a parse error.
pub open spec fn parse_error_text(e: ParseErrorModel) -> Seq<char> {
    match e {
        ParseErrorModel::UnknownCommand(cmd) => "unknown command: /"@ + cmd + " (try /help)"@,
        ParseErrorModel::DialUsage => "usage: /dial <64-hex-peer-id>"@,
        ParseErrorModel::ExtraArgs(cmd) => "/"@ + cmd + " takes no arguments"@,
        ParseErrorModel::InvalidPeerId => "invalid Peer ID"@,
    }
}

impl ParseError {
    /// The text shown for this error.
    pub fn message(&self) -> (text: String)
        ensures
            text@ == parse_error_text(self@),
    {
        match self {
            ParseError::UnknownCommand(cmd) => {
                let mut t = string_of("unknown command: /");
                push_str(&mut t, cmd.as_str());
                push_str(&mut t, " (try /help)");
                t
            },
            ParseError::DialUsage => string_of("usage: /dial <64-hex-peer-id>"),
            ParseError::ExtraArgs(cmd) => {
                let mut t = string_of("/");
                push_str(&mut t, cmd);
                push_str(&mut t, " takes no arguments");
                t
            },
            ParseError::InvalidPeerId => string_of("invalid Peer ID"),
        }
    }
}

} // verus!
