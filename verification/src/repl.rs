//! Decisions of the REPL event loop.
//!
//! The loop waits on the terminal, on inbound Chat Sessions, on the active
//! Chat Session and on a dial in flight, and performs the Session I/O itself.
//! [`Repl`] holds what it decides with: the one active Chat Session (of any
//! handle type `S`) and whether a dial is in flight. Each method takes one
//! event, updates that state, renders what the user sees into a [`Ui`], and
//! says what Session work is to be done.

use vstd::prelude::*;
use crate::command::{
    HELP, UserInput, parse_error_text, parse_line, parse_line_spec, InputModel, lemma_bare_commands,
};
use crate::frame::ChatMessage;
use crate::store::{PeerId, hex_of, peer_id_hex};
use crate::text::{push_str, string_of};
use crate::ui::{TrustState, Ui, error_line, label_of, raw_line, recv_line, system_line, trust_label};

verus! {

/// Session work that a REPL step asks for.
pub enum Request<S> {
    /// Nothing more to do.
    Nothing,
    /// Leave the REPL: close the Chat Session and the Endpoint.
    Quit,
    /// Show `/info` (see [`info_text`]) for the active Chat Session, if any.
    Info,
    /// Show the SAS Display of the active Chat Session (see [`Repl::show_sas`]).
    Sas,
    /// Mark the Remote Peer of the active Chat Session Verified.
    Verify,
    /// Close this Chat Session, which has left the slot.
    Close(S),
    /// Dial `peer`, with the configured Relay URLs as hints when
    /// `relay_hints`, with no hints otherwise.
    Dial { peer: PeerId, relay_hints: bool },
    /// Send this text on the active Chat Session.
    Send(String),
}

/// What the REPL decides with.
pub struct Repl<S> {
    /// The one active Chat Session.
    pub session: Option<S>,
    /// Whether a dial is in flight.
    pub dialing: bool,
}

/// `ui` changed from `before` by `out` more output and `err` more error text.
pub open spec fn shows(before: Ui, after: Ui, out: Seq<char>, err: Seq<char>) -> bool {
    &&& after.out_text() == before.out_text() + out
    &&& after.err_text() == before.err_text() + err
}

/// The error shown when a command needs a Chat Session and there is none.
pub open spec fn no_session_text() -> Seq<char> {
    "no Chat Session"@
}

/// The announcement of a new Chat Session.
pub open spec fn session_text(how: Seq<char>, remote: PeerId, trust: TrustState) -> Seq<char> {
    "Chat Session "@ + how + ": "@ + hex_of(remote@) + " ("@ + label_of(trust) + ")"@
}

/// A new Chat Session `s`, announced as `text`, went into an empty slot;
/// with a Chat Session already in the slot, that one stays and `s` is handed
/// back as `surplus`.
pub open spec fn session_arrived<S>(
    before: Repl<S>,
    after: Repl<S>,
    ui0: Ui,
    ui1: Ui,
    s: S,
    surplus: Option<S>,
    text: Seq<char>,
) -> bool {
    if before.session is None {
        &&& after.session == Some(s)
        &&& surplus is None
        &&& shows(ui0, ui1, system_line(text), seq![])
    } else {
        &&& after.session == before.session
        &&& surplus == Some(s)
        &&& shows(ui0, ui1, seq![], error_line("already in a Chat Session; closing "@ + text))
    }
}

/// The `/info` text.
pub open spec fn info_spec(local: PeerId, remote: Option<(PeerId, TrustState)>) -> Seq<char> {
    "Local Peer ID: "@ + hex_of(local@) + match remote {
        None => "\nChat Session: none"@,
        Some((id, trust)) => "\nRemote Peer ID: "@ + hex_of(id@) + "\nTrust State: "@ + label_of(
            trust,
        ),
    }
}

/// The `/info` text: the Local Peer ID, and the Remote Peer ID and its Trust
/// State when there is a Chat Session.
pub fn info_text(local: PeerId, remote: Option<(PeerId, TrustState)>) -> (text: String)
    ensures
        text@ == info_spec(local, remote),
{
    let mut text = string_of("Local Peer ID: ");
    push_str(&mut text, peer_id_hex(local).as_str());
    match remote {
        None => push_str(&mut text, "\nChat Session: none"),
        Some((id, trust)) => {
            push_str(&mut text, "\nRemote Peer ID: ");
            push_str(&mut text, peer_id_hex(id).as_str());
            push_str(&mut text, "\nTrust State: ");
            push_str(&mut text, trust_label(trust));
        },
    }
    text
}

/// What handling an already parsed input does: its request, the state after,
/// and what is shown.
pub open spec fn dispatch_spec<S>(
    before: Repl<S>,
    input: InputModel,
    relay_hints: bool,
    after: Repl<S>,
    req: Request<S>,
    ui0: Ui,
    ui1: Ui,
) -> bool {
    match input {
        InputModel::Help => req is Nothing && after == before && shows(ui0, ui1, raw_line(HELP@), seq![]),
        InputModel::Info => req is Info && after == before && shows(ui0, ui1, seq![], seq![]),
        InputModel::Sas => after == before && if before.session is Some {
            req is Sas && shows(ui0, ui1, seq![], seq![])
        } else {
            req is Nothing && shows(ui0, ui1, seq![], error_line(no_session_text()))
        },
        InputModel::Verify => after == before && if before.session is Some {
            req is Verify && shows(ui0, ui1, seq![], seq![])
        } else {
            req is Nothing && shows(ui0, ui1, seq![], error_line(no_session_text()))
        },
        InputModel::Close => after.dialing == before.dialing && after.session is None && match before.session {
            Some(s) => req == Request::Close(s) && shows(ui0, ui1, system_line("Chat Session closed."@), seq![]),
            None => req is Nothing && shows(ui0, ui1, seq![], error_line(no_session_text())),
        },
        InputModel::Dial(bytes) => if before.session is Some {
            req is Nothing && after == before && shows(ui0, ui1, seq![], error_line(
                "already in a Chat Session; /close first"@,
            ))
        } else if before.dialing {
            req is Nothing && after == before && shows(ui0, ui1, seq![], error_line(
                "already dialing; wait for completion or /quit"@,
            ))
        } else {
            &&& req matches Request::Dial { peer, relay_hints: hints } && peer@ == bytes && hints == relay_hints
            &&& after.session == before.session && after.dialing
            &&& shows(ui0, ui1, system_line("dialing "@ + hex_of(bytes)), seq![])
        },
        InputModel::Message(text) => after == before && if before.session is Some {
            req matches Request::Send(t) && t@ == text && shows(ui0, ui1, seq![], seq![])
        } else {
            req is Nothing && shows(ui0, ui1, seq![], error_line(
                "no Chat Session; /dial or wait for inbound"@,
            ))
        },
        InputModel::Quit => req is Quit && after == before && shows(ui0, ui1, seq![], seq![]),
    }
}

/// What handling a REPL line does: a blank line nothing, a parse error is
/// shown, and a parsed input is dispatched.
pub open spec fn line_handled<S>(
    before: Repl<S>,
    line: Seq<char>,
    relay_hints: bool,
    after: Repl<S>,
    req: Request<S>,
    ui0: Ui,
    ui1: Ui,
) -> bool {
    match parse_line_spec(line) {
        Ok(None) => req is Nothing && after == before && shows(ui0, ui1, seq![], seq![]),
        Ok(Some(input)) => dispatch_spec(before, input, relay_hints, after, req, ui0, ui1),
        Err(e) => req is Nothing && after == before && shows(ui0, ui1, seq![], error_line(parse_error_text(e))),
    }
}

impl<S> Repl<S> {
    /// No Chat Session, no dial in flight.
    pub fn new() -> (r: Repl<S>)
        ensures
            r.session is None,
            !r.dialing,
    {
        Repl { session: None, dialing: false }
    }

    /// Whether to wait for an inbound Chat Session: only while there is none.
    pub fn accepting(&self) -> (b: bool)
        ensures
            b == (self.session is None),
    {
        self.session.is_none()
    }

    /// Whether to read from the active Chat Session: only while there is one.
    pub fn receiving(&self) -> (b: bool)
        ensures
            b == (self.session is Some),
    {
        self.session.is_some()
    }

    /// Handle one REPL line: parse it, then act on it. A parse error is
    /// shown; `/quit` and `/exit` ask to leave.
    pub fn handle_line(&mut self, ui: &mut Ui, line: &str, relay_hints: bool) -> (req: Request<S>)
        ensures
            line_handled(*old(self), line@, relay_hints, *final(self), req, *old(ui), *final(ui)),
    {
        match parse_line(line) {
            Ok(None) => {
                Request::Nothing
            },
            Ok(Some(UserInput::Quit)) => {
                Request::Quit
            },
            Ok(Some(input)) => self.dispatch(ui, input, relay_hints),
            Err(e) => {
                ui.error(e.message().as_str());
                Request::Nothing
            },
        }
    }

    /// Act on one parsed input.
    pub fn dispatch(&mut self, ui: &mut Ui, input: UserInput, relay_hints: bool) -> (req: Request<S>)
        ensures
            dispatch_spec(*old(self), input@, relay_hints, *final(self), req, *old(ui), *final(ui)),
    {
        proof {
            reveal_strlit("no Chat Session");
            reveal_strlit("Chat Session closed.");
            reveal_strlit("dialing ");
        }
        match input {
            UserInput::Help => {
                ui.raw(HELP);
                Request::Nothing
            },
            UserInput::Info => {
                Request::Info
            },
            UserInput::Sas => {
                if self.session.is_some() {
                    Request::Sas
                } else {
                    ui.error("no Chat Session");
                    Request::Nothing
                }
            },
            UserInput::Verify => {
                if self.session.is_some() {
                    Request::Verify
                } else {
                    ui.error("no Chat Session");
                    Request::Nothing
                }
            },
            UserInput::Close => {
                match self.session.take() {
                    Some(s) => {
                        ui.system("Chat Session closed.");
                        Request::Close(s)
                    },
                    None => {
                        ui.error("no Chat Session");
                        Request::Nothing
                    },
                }
            },
            UserInput::Dial(peer) => {
                if self.session.is_some() {
                    ui.error("already in a Chat Session; /close first");
                    return Request::Nothing;
                }
                if self.dialing {
                    ui.error("already dialing; wait for completion or /quit");
                    return Request::Nothing;
                }
                let mut msg = string_of("dialing ");
                push_str(&mut msg, peer_id_hex(peer).as_str());
                ui.system(msg.as_str());
                self.dialing = true;
                Request::Dial { peer, relay_hints }
            },
            UserInput::Message(text) => {
                if self.session.is_some() {
                    Request::Send(text)
                } else {
                    ui.error("no Chat Session; /dial or wait for inbound");
                    Request::Nothing
                }
            },
            UserInput::Quit => {
                Request::Quit
            },
        }
    }

    /// Show the start-up lines: the Local Peer ID and how to get help.
    pub fn greet(ui: &mut Ui, local: PeerId)
        ensures
            shows(*old(ui), *final(ui), raw_line("Peer ID: "@ + hex_of(local@)) + system_line(
                "Type /help for Slash Commands. Listening for inbound Chat Sessions."@,
            ), seq![]),
    {
        let mut line = string_of("Peer ID: ");
        push_str(&mut line, peer_id_hex(local).as_str());
        ui.raw(line.as_str());
        ui.system("Type /help for Slash Commands. Listening for inbound Chat Sessions.");
        assert(final(ui).out_text() =~= old(ui).out_text() + (raw_line("Peer ID: "@ + hex_of(local@)) + system_line(
                "Type /help for Slash Commands. Listening for inbound Chat Sessions."@)));
    }

    /// Show `/info`.
    pub fn show_info(ui: &mut Ui, local: PeerId, remote: Option<(PeerId, TrustState)>)
        ensures
            shows(*old(ui), *final(ui), raw_line(info_spec(local, remote)), seq![]),
    {
        ui.raw(info_text(local, remote).as_str());
    }

    /// Show the SAS Display that the trust layer computed.
    pub fn show_sas(ui: &mut Ui, code: &str)
        ensures
            shows(*old(ui), *final(ui), raw_line("SAS Display: "@ + code@), seq![]),
    {
        let mut line = string_of("SAS Display: ");
        push_str(&mut line, code);
        ui.raw(line.as_str());
    }

    /// The Remote Peer was marked Verified.
    pub fn on_verified(ui: &mut Ui, remote: PeerId)
        ensures
            shows(*old(ui), *final(ui), system_line("Trust State: Verified ("@ + hex_of(remote@) + ")"@), seq![]),
    {
        let mut line = string_of("Trust State: Verified (");
        push_str(&mut line, peer_id_hex(remote).as_str());
        push_str(&mut line, ")");
        ui.system(line.as_str());
    }

    /// Show a failure under a heading: `heading: err` on the error sink.
    fn show_failure(ui: &mut Ui, heading: &str, err: &str)
        ensures
            shows(*old(ui), *final(ui), seq![], error_line(heading@ + ": "@ + err@)),
    {
        let mut line = string_of(heading);
        push_str(&mut line, ": ");
        push_str(&mut line, err);
        ui.error(line.as_str());
    }

    /// Marking the Remote Peer Verified failed.
    pub fn on_verify_failed(ui: &mut Ui, err: &str)
        ensures
            shows(*old(ui), *final(ui), seq![], error_line("verify failed: "@ + err@)),
    {
        Self::show_failure(ui, "verify failed", err);
        proof { reveal_strlit("verify failed"); reveal_strlit("verify failed: "); reveal_strlit(": "); }
        assert("verify failed"@ + ": "@ =~= "verify failed: "@);
        assert("verify failed"@ + ": "@ + err@ =~= "verify failed: "@ + err@);
    }

    /// Reading the terminal failed: show it and leave.
    pub fn on_input_error(ui: &mut Ui, err: &str) -> (req: Request<S>)
        ensures
            req is Quit,
            shows(*old(ui), *final(ui), seq![], error_line("stdin: "@ + err@)),
    {
        Self::show_failure(ui, "stdin", err);
        proof { reveal_strlit("stdin"); reveal_strlit("stdin: "); reveal_strlit(": "); }
        assert("stdin"@ + ": "@ + err@ =~= "stdin: "@ + err@);
        Request::Quit
    }

    /// A Chat Session was established. It takes the slot when the slot is
    /// empty; with a Chat Session already there (only one at a time), the new
    /// one is handed back to be closed.
    fn on_session(&mut self, ui: &mut Ui, s: S, remote: PeerId, trust: TrustState, how: &str) -> (surplus: Option<S>)
        ensures
            session_arrived(*old(self), *final(self), *old(ui), *final(ui), s, surplus, session_text(how@, remote, trust)),
            final(self).dialing == old(self).dialing,
    {
        let mut line = string_of("Chat Session ");
        push_str(&mut line, how);
        push_str(&mut line, ": ");
        push_str(&mut line, peer_id_hex(remote).as_str());
        push_str(&mut line, " (");
        push_str(&mut line, trust_label(trust));
        push_str(&mut line, ")");
        if self.session.is_some() {
            let mut refusal = string_of("already in a Chat Session; closing ");
            push_str(&mut refusal, line.as_str());
            ui.error(refusal.as_str());
            return Some(s);
        }
        ui.system(line.as_str());
        self.session = Some(s);
        None
    }

    /// An inbound Chat Session was accepted.
    pub fn on_accepted(&mut self, ui: &mut Ui, s: S, remote: PeerId, trust: TrustState) -> (surplus: Option<S>)
        ensures
            session_arrived(*old(self), *final(self), *old(ui), *final(ui), s, surplus, session_text("inbound"@, remote, trust)),
            final(self).dialing == old(self).dialing,
    {
        self.on_session(ui, s, remote, trust, "inbound")
    }

    /// Accepting failed. When the Endpoint has closed, leave the REPL;
    /// otherwise show the error and go on.
    pub fn on_accept_failed(ui: &mut Ui, endpoint_closed: bool, err: &str) -> (req: Request<S>)
        ensures
            endpoint_closed ==> req is Quit && shows(*old(ui), *final(ui), seq![], seq![]),
            !endpoint_closed ==> req is Nothing && shows(*old(ui), *final(ui), seq![], error_line("accept failed: "@ + err@)),
    {
        if endpoint_closed {
            return Request::Quit;
        }
        Self::show_failure(ui, "accept failed", err);
        proof { reveal_strlit("accept failed"); reveal_strlit("accept failed: "); reveal_strlit(": "); }
        assert("accept failed"@ + ": "@ + err@ =~= "accept failed: "@ + err@);
        Request::Nothing
    }

    /// The dial in flight connected. The Chat Session takes the slot when it
    /// is empty; if one was accepted meanwhile, the dialed one is handed back
    /// to be closed.
    pub fn on_dial_connected(&mut self, ui: &mut Ui, s: S, remote: PeerId, trust: TrustState) -> (surplus: Option<S>)
        ensures
            session_arrived(*old(self), *final(self), *old(ui), *final(ui), s, surplus, session_text("outbound"@, remote, trust)),
            !final(self).dialing,
    {
        self.dialing = false;
        self.on_session(ui, s, remote, trust, "outbound")
    }

    /// Ctrl-C at the prompt: the draft is dropped and the REPL goes on.
    pub fn on_interrupted(ui: &mut Ui) -> (req: Request<S>)
        ensures
            req is Nothing,
            shows(*old(ui), *final(ui), seq![], seq![]),
    {
        Request::Nothing
    }

    /// The end of the input (Ctrl-D, or the end of piped input): leave.
    pub fn on_end_of_input(ui: &mut Ui) -> (req: Request<S>)
        ensures
            req is Quit,
            shows(*old(ui), *final(ui), seq![], seq![]),
    {
        Request::Quit
    }

    /// The dial in flight failed.
    pub fn on_dial_failed(&mut self, ui: &mut Ui, err: &str)
        ensures
            final(self).session == old(self).session,
            !final(self).dialing,
            shows(*old(ui), *final(ui), seq![], error_line("dial failed: "@ + err@)),
    {
        self.dialing = false;
        Self::show_failure(ui, "dial failed", err);
        proof { reveal_strlit("dial failed"); reveal_strlit("dial failed: "); reveal_strlit(": "); }
        assert("dial failed"@ + ": "@ + err@ =~= "dial failed: "@ + err@);
    }

    /// A message arrived on the active Chat Session.
    pub fn on_message(ui: &mut Ui, msg: &ChatMessage)
        ensures
            shows(*old(ui), *final(ui), recv_line(msg.text@), seq![]),
    {
        ui.recv(msg.text.as_str());
    }

    /// The Remote Peer closed the Chat Session: the slot empties.
    pub fn on_remote_closed(&mut self, ui: &mut Ui) -> (gone: Option<S>)
        ensures
            gone == old(self).session,
            final(self).session is None,
            final(self).dialing == old(self).dialing,
            shows(*old(ui), *final(ui), system_line("Remote Peer closed the Chat Session."@), seq![]),
    {
        ui.system("Remote Peer closed the Chat Session.");
        self.session.take()
    }

    /// Reading the active Chat Session failed: the slot empties.
    pub fn on_recv_failed(&mut self, ui: &mut Ui, err: &str) -> (gone: Option<S>)
        ensures
            gone == old(self).session,
            final(self).session is None,
            final(self).dialing == old(self).dialing,
            shows(*old(ui), *final(ui), seq![], error_line("recv failed: "@ + err@)),
    {
        Self::show_failure(ui, "recv failed", err);
        proof { reveal_strlit("recv failed"); reveal_strlit("recv failed: "); reveal_strlit(": "); }
        assert("recv failed"@ + ": "@ + err@ =~= "recv failed: "@ + err@);
        self.session.take()
    }

    /// Sending on the active Chat Session failed: the slot empties.
    pub fn on_send_failed(&mut self, ui: &mut Ui, err: &str) -> (gone: Option<S>)
        ensures
            gone == old(self).session,
            final(self).session is None,
            final(self).dialing == old(self).dialing,
            shows(*old(ui), *final(ui), seq![], error_line("send failed: "@ + err@)),
    {
        Self::show_failure(ui, "send failed", err);
        proof { reveal_strlit("send failed"); reveal_strlit("send failed: "); reveal_strlit(": "); }
        assert("send failed"@ + ": "@ + err@ =~= "send failed: "@ + err@);
        self.session.take()
    }
}

/// A dial is asked for only from an idle REPL (no Chat Session, no dial in
/// flight), and from then on a dial is in flight: there is never more than
/// one.
pub proof fn lemma_dial_only_when_idle<S>(
    before: Repl<S>,
    input: InputModel,
    relay_hints: bool,
    after: Repl<S>,
    req: Request<S>,
    ui0: Ui,
    ui1: Ui,
)
    requires
        dispatch_spec(before, input, relay_hints, after, req, ui0, ui1),
        req is Dial,
    ensures
        before.session is None,
        !before.dialing,
        after.dialing,
        after.session is None,
{
}

/// Chat text is sent only on an active Chat Session.
pub proof fn lemma_send_only_in_session<S>(
    before: Repl<S>,
    input: InputModel,
    relay_hints: bool,
    after: Repl<S>,
    req: Request<S>,
    ui0: Ui,
    ui1: Ui,
)
    requires
        dispatch_spec(before, input, relay_hints, after, req, ui0, ui1),
        req is Send,
    ensures
        before.session is Some,
        after == before,
{
}

/// An input that asks for no Session work leaves the state as it was.
pub proof fn lemma_nothing_keeps_state<S>(
    before: Repl<S>,
    input: InputModel,
    relay_hints: bool,
    after: Repl<S>,
    req: Request<S>,
    ui0: Ui,
    ui1: Ui,
)
    requires
        dispatch_spec(before, input, relay_hints, after, req, ui0, ui1),
        req is Nothing,
    ensures
        after == before,
{
}

/// A command takes the Chat Session out of the slot only by `/close`, and
/// then hands that very Chat Session over to be closed.
pub proof fn lemma_close_hands_over_the_session<S>(
    before: Repl<S>,
    input: InputModel,
    relay_hints: bool,
    after: Repl<S>,
    req: Request<S>,
    ui0: Ui,
    ui1: Ui,
)
    requires
        dispatch_spec(before, input, relay_hints, after, req, ui0, ui1),
        before.session is Some,
        after.session is None,
    ensures
        input is Close,
        req == Request::Close(before.session->Some_0),
{
}

/// Only one Chat Session at a time: an arriving Chat Session never replaces
/// the one in the slot, and the slot is never left empty by an arrival.
pub proof fn lemma_one_session_at_a_time<S>(
    before: Repl<S>,
    after: Repl<S>,
    ui0: Ui,
    ui1: Ui,
    s: S,
    surplus: Option<S>,
    text: Seq<char>,
)
    requires
        session_arrived(before, after, ui0, ui1, s, surplus, text),
    ensures
        before.session is Some ==> after.session == before.session,
        after.session is Some,
{
}

/// `/info`, `/help` and `/quit` are answered in every state, with or without
/// a Chat Session and with or without a dial in flight: `/info` asks for the
/// info view and shows nothing itself, `/help` prints the help text, `/quit`
/// asks to leave; none of them changes the state or writes an error.
pub proof fn lemma_session_free_commands<S>(
    before: Repl<S>,
    input: InputModel,
    relay_hints: bool,
    after: Repl<S>,
    req: Request<S>,
    ui0: Ui,
    ui1: Ui,
)
    requires
        dispatch_spec(before, input, relay_hints, after, req, ui0, ui1),
        input is Info || input is Help || input is Quit,
    ensures
        after == before,
        ui1.err_text() == ui0.err_text(),
        input is Info ==> req is Info && ui1.out_text() == ui0.out_text(),
        input is Help ==> req is Nothing && ui1.out_text() == ui0.out_text() + HELP@ + seq!['\n'],
        input is Quit ==> req is Quit && ui1.out_text() == ui0.out_text(),
{
    if input is Help {
        assert(ui0.out_text() + raw_line(HELP@) =~= ui0.out_text() + HELP@ + seq!['\n']);
    }
}

/// The line `/info` is answered in every state, also with no Chat Session:
/// handling it asks for the info view, which then reports "Chat Session:
/// none" or the Remote Peer, and changes nothing and shows nothing itself.
pub proof fn lemma_info_line_always_answered<S>(
    before: Repl<S>,
    relay_hints: bool,
    after: Repl<S>,
    req: Request<S>,
    ui0: Ui,
    ui1: Ui,
)
    requires
        line_handled(before, seq!['/', 'i', 'n', 'f', 'o'], relay_hints, after, req, ui0, ui1),
    ensures
        req is Info,
        after == before,
        ui1.out_text() == ui0.out_text(),
        ui1.err_text() == ui0.err_text(),
{
    lemma_bare_commands();
    lemma_session_free_commands(before, InputModel::Info, relay_hints, after, req, ui0, ui1);
}

} // verus!
