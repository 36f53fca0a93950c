//! Terminal presentation: Trust State labels, the prompt, and the lines the
//! REPL prints.
//!
//! [`Ui`] renders each line into one of two buffers, the output sink and the
//! error sink; the program drains them to its terminal after each step.

use vstd::prelude::*;
use crate::store::{PeerId, hex_of, peer_id_hex};
use crate::text::{chars_of, is_control, is_control_char, push_str};

verus! {

/// Characters of the 64-char hex Peer ID shown in the prompt.
pub const SHORT_LEN: usize = 8;

/// How far the local Endpoint trusts a Remote Peer.
#[derive(Debug, Clone, Copy, PartialEq, Eq)]
pub enum TrustState {
    /// Marked Verified after an out-of-band SAS check.
    Verified,
    /// Trusted on first use, not yet verified.
    Tofu,
    /// Not known, or the trust store could not say.
    Unknown,
}

/// The label of a Trust State.
pub open spec fn label_of(state: TrustState) -> Seq<char> {
    match state {
        TrustState::Verified => seq!['V', 'e', 'r', 'i', 'f', 'i', 'e', 'd'],
        TrustState::Tofu => seq!['T', 'O', 'F', 'U'],
        TrustState::Unknown => seq!['u', 'n', 'k', 'n', 'o', 'w', 'n'],
    }
}

/// Label for a Trust State, shared by `/info` and the prompt.
pub fn trust_label(state: TrustState) -> (label: &'static str)
    ensures
        label@ == label_of(state),
{
    proof {
        reveal_strlit("Verified");
        reveal_strlit("TOFU");
        reveal_strlit("unknown");
    }
    match state {
        TrustState::Verified => {
            assert("Verified"@ =~= label_of(state));
            "Verified"
        },
        TrustState::Tofu => {
            assert("TOFU"@ =~= label_of(state));
            "TOFU"
        },
        TrustState::Unknown => {
            assert("unknown"@ =~= label_of(state));
            "unknown"
        },
    }
}

/// The prompt: `[idle]> ` without a Chat Session, otherwise the first eight
/// hex characters of the Remote Peer ID and the Trust State label.
pub open spec fn prompt_text(remote: Option<(PeerId, TrustState)>) -> Seq<char> {
    match remote {
        None => seq!['[', 'i', 'd', 'l', 'e', ']', '>', ' '],
        Some((id, state)) => seq!['['] + hex_of(id@).take(SHORT_LEN as int) + seq!['|']
            + label_of(state) + seq![']', '>', ' '],
    }
}

/// Prompt string for the current Chat Session, or `[idle]> ` when there is none.
pub fn prompt_for(remote: Option<(PeerId, TrustState)>) -> (prompt: String)
    ensures
        prompt@ == prompt_text(remote),
{
    proof {
        reveal_strlit("[idle]> ");
        reveal_strlit("[");
        reveal_strlit("|");
        reveal_strlit("]> ");
    }
    match remote {
        None => {
            let p = "[idle]> ".to_owned();
            assert(p@ =~= prompt_text(remote));
            p
        },
        Some((id, state)) => {
            let hex = peer_id_hex(id);
            let mut p = "[".to_owned();
            let cs = chars_of(hex.as_str());
            let mut i: usize = 0;
            while i < SHORT_LEN
                invariant
                    i <= SHORT_LEN,
                    hex@.len() == 64,
                    cs@ == hex@,
                    p@ == seq!['['] + hex@.take(i as int),
                decreases SHORT_LEN - i,
            {
                p.push(cs[i]);
                i = i + 1;
                assert(p@ =~= seq!['['] + hex@.take(i as int));
            }
            push_str(&mut p, "|");
            push_str(&mut p, trust_label(state));
            push_str(&mut p, "]> ");
            assert(p@ =~= prompt_text(remote));
            p
        },
    }
}

/// The Trust State the trust store reports, or `Unknown` when it reports none.
pub fn trust_or_unknown(state: Option<TrustState>) -> (t: TrustState)
    ensures
        t == (match state {
            Some(s) => s,
            None => TrustState::Unknown,
        }),
{
    match state {
        Some(s) => s,
        None => TrustState::Unknown,
    }
}

/// The prompt to switch to: the prompt for `remote` when it differs from
/// `current`, none when `current` is already that prompt.
pub fn prompt_change(current: &String, remote: Option<(PeerId, TrustState)>) -> (next: Option<String>)
    ensures
        match next {
            Some(p) => p@ == prompt_text(remote) && current@ != prompt_text(remote),
            None => current@ == prompt_text(remote),
        },
{
    let want = prompt_for(remote);
    if want == *current {
        None
    } else {
        Some(want)
    }
}

/// Remote text with every control character replaced by U+FFFD.
pub open spec fn neutralise(text: Seq<char>) -> Seq<char> {
    text.map_values(|c: char| if is_control_char(c) { '\u{fffd}' } else { c })
}

/// The line shown for a message from the Remote Peer.
pub open spec fn recv_line(text: Seq<char>) -> Seq<char> {
    seq!['<', ' '] + neutralise(text) + seq!['\n']
}

/// The line shown for a local lifecycle event.
pub open spec fn system_line(msg: Seq<char>) -> Seq<char> {
    seq!['*', ' '] + msg + seq!['\n']
}

/// The line shown for a failed command or a recoverable error.
pub open spec fn error_line(err: Seq<char>) -> Seq<char> {
    seq!['!', ' '] + err + seq!['\n']
}

/// The line shown for unadorned output.
pub open spec fn raw_line(text: Seq<char>) -> Seq<char> {
    text + seq!['\n']
}

/// Where a line goes.
enum Sink {
    Out,
    Error,
}

/// Output sinks: what is waiting to be shown on the output stream and on the
/// error stream.
pub struct Ui {
    out: String,
    err: String,
}

impl Ui {
    /// What is waiting on the output sink.
    pub closed spec fn out_text(&self) -> Seq<char> {
        self.out@
    }

    /// What is waiting on the error sink.
    pub closed spec fn err_text(&self) -> Seq<char> {
        self.err@
    }

    /// Empty sinks.
    pub fn new() -> (ui: Ui)
        ensures
            ui.out_text() == Seq::<char>::empty(),
            ui.err_text() == Seq::<char>::empty(),
    {
        Ui { out: String::new(), err: String::new() }
    }

    /// A message from the Remote Peer. Control characters are neutralised so
    /// that a Remote Peer cannot move the cursor, clear the screen, or forge a
    /// `< ` line with an embedded newline.
    pub fn recv(&mut self, text: &str)
        ensures
            final(self).out_text() == old(self).out_text() + recv_line(text@),
            final(self).err_text() == old(self).err_text(),
    {
        let cs = chars_of(text);
        let mut safe = "< ".to_owned();
        proof {
            reveal_strlit("< ");
        }
        let mut i: usize = 0;
        while i < cs.len()
            invariant
                i <= cs@.len(),
                cs@ == text@,
                safe@ == seq!['<', ' '] + neutralise(text@).take(i as int),
            decreases cs@.len() - i,
        {
            let c = cs[i];
            if is_control(c) {
                safe.push('\u{fffd}');
            } else {
                safe.push(c);
            }
            i = i + 1;
            assert(safe@ =~= seq!['<', ' '] + neutralise(text@).take(i as int));
        }
        assert(neutralise(text@).take(cs@.len() as int) =~= neutralise(text@));
        self.line(Sink::Out, safe.as_str());
        assert(final(self).out_text() =~= old(self).out_text() + recv_line(text@));
    }

    /// A local lifecycle event.
    pub fn system(&mut self, msg: &str)
        ensures
            final(self).out_text() == old(self).out_text() + system_line(msg@),
            final(self).err_text() == old(self).err_text(),
    {
        let mut s = "* ".to_owned();
        proof {
            reveal_strlit("* ");
        }
        push_str(&mut s, msg);
        self.line(Sink::Out, s.as_str());
        assert(final(self).out_text() =~= old(self).out_text() + system_line(msg@));
    }

    /// A failed command or a recoverable error.
    pub fn error(&mut self, err: &str)
        ensures
            final(self).err_text() == old(self).err_text() + error_line(err@),
            final(self).out_text() == old(self).out_text(),
    {
        let mut s = "! ".to_owned();
        proof {
            reveal_strlit("! ");
        }
        push_str(&mut s, err);
        self.line(Sink::Error, s.as_str());
        assert(final(self).err_text() =~= old(self).err_text() + error_line(err@));
    }

    /// Unadorned output, for multi-line command results such as `/help`.
    pub fn raw(&mut self, text: &str)
        ensures
            final(self).out_text() == old(self).out_text() + raw_line(text@),
            final(self).err_text() == old(self).err_text(),
    {
        self.line(Sink::Out, text);
    }

    /// One newline-terminated line onto one sink.
    fn line(&mut self, sink: Sink, text: &str)
        ensures
            sink is Out ==> final(self).out_text() == old(self).out_text() + text@ + seq!['\n']
                && final(self).err_text() == old(self).err_text(),
            sink is Error ==> final(self).err_text() == old(self).err_text() + text@ + seq!['\n']
                && final(self).out_text() == old(self).out_text(),
    {
        match sink {
            Sink::Out => {
                push_str(&mut self.out, text);
                self.out.push('\n');
            },
            Sink::Error => {
                push_str(&mut self.err, text);
                self.err.push('\n');
            },
        }
    }

    /// Hand over what waits on the output sink, leaving it empty.
    pub fn take_out(&mut self) -> (text: String)
        ensures
            text@ == old(self).out_text(),
            final(self).out_text() == Seq::<char>::empty(),
            final(self).err_text() == old(self).err_text(),
    {
        let mut text = String::new();
        std::mem::swap(&mut text, &mut self.out);
        text
    }

    /// Hand over what waits on the error sink, leaving it empty.
    pub fn take_err(&mut self) -> (text: String)
        ensures
            text@ == old(self).err_text(),
            final(self).err_text() == Seq::<char>::empty(),
            final(self).out_text() == old(self).out_text(),
    {
        let mut text = String::new();
        std::mem::swap(&mut text, &mut self.err);
        text
    }
}

/// A Remote Peer's message is shown as `< `, then each of its characters in
/// order, then a newline. Exactly the characters of Unicode category `Cc`
/// (U+0000..U+001F and U+007F..U+009F) are replaced, each by U+FFFD; every
/// other character, printable Latin-1 and beyond included, is kept as it is.
pub proof fn lemma_recv_line_replaces_only_controls(text: Seq<char>)
    ensures
        recv_line(text).len() == text.len() + 3,
        recv_line(text)[0] == '<',
        recv_line(text)[1] == ' ',
        recv_line(text)[text.len() + 2int] == '\n',
        forall|i: int|
            0 <= i < text.len() ==> recv_line(text)[i + 2] == (if (#[trigger] text[i] as u32) <= 0x1F
                || (0x7F <= (text[i] as u32) && (text[i] as u32) <= 0x9F) {
                '\u{fffd}'
            } else {
                text[i]
            }),
{
    let l = recv_line(text);
    assert forall|i: int| 0 <= i < text.len() implies l[i + 2] == (if (#[trigger] text[i] as u32)
        <= 0x1F || (0x7F <= (text[i] as u32) && (text[i] as u32) <= 0x9F) {
        '\u{fffd}'
    } else {
        text[i]
    }) by {
        assert(l[i + 2] == neutralise(text)[i]);
    }
}

/// A Remote Peer's message shows as exactly one line: nothing but its final
/// newline is a control character, whatever the text holds.
pub proof fn lemma_recv_line_is_one_line(text: Seq<char>)
    ensures
        recv_line(text).last() == '\n',
        forall|i: int| 0 <= i < recv_line(text).len() - 1 ==> !is_control_char(#[trigger] recv_line(text)[i]),
{
    let l = recv_line(text);
    assert forall|i: int| 0 <= i < l.len() - 1 implies !is_control_char(#[trigger] l[i]) by {
        if i >= 2 {
            assert(l[i] == neutralise(text)[i - 2]);
        }
    }
}

/// The Peer ID in the prompt is the first eight characters of its full hex.
pub proof fn lemma_prompt_shows_hex_prefix(id: PeerId, state: TrustState)
    ensures
        prompt_text(Some((id, state))).subrange(1, 1 + SHORT_LEN as int) == hex_of(id@).take(SHORT_LEN as int),
        hex_of(id@).take(SHORT_LEN as int).len() == SHORT_LEN,
{
    assert(prompt_text(Some((id, state))).subrange(1, 9) =~= hex_of(id@).take(8));
}

} // verus!
