//! Peer IDs in hex, and the choices that decide how the local Endpoint is
//! bound: which key and trust stores, which Relay.

use vstd::prelude::*;
use vstd::string::StringSliceAdditionalSpecFns;
use std::path::PathBuf;
use crate::cli::Args;


verus! {

/// Number of bytes in a Peer ID (an Ed25519 public key).
pub const PEER_ID_LEN: usize = 32;

/// Number of hex characters in a Peer ID.
pub const PEER_ID_HEX_LEN: usize = 64;

/// A Peer ID: the 32 bytes of a peer's public identity key.
#[derive(Debug, Clone, Copy, PartialEq, Eq, Hash)]
pub struct PeerId {
    pub bytes: [u8; 32],
}

impl View for PeerId {
    type V = Seq<u8>;

    open spec fn view(&self) -> Seq<u8> {
        self.bytes@
    }
}

impl PeerId {
    /// The Peer ID with the given key bytes (taken as they are; the trust
    /// layer checks them when it is handed the Peer ID).
    pub fn from_bytes(bytes: [u8; 32]) -> (id: PeerId)
        ensures
            id@ == bytes@,
    {
        PeerId { bytes }
    }

    /// The key bytes of this Peer ID.
    pub fn as_bytes(&self) -> (bytes: [u8; 32])
        ensures
            bytes@ == self@,
    {
        self.bytes
    }
}

/// The lowercase hex digit for `d < 16`.
pub open spec fn hex_digit(d: nat) -> char {
    if d < 10 {
        ((d + 0x30) as u32) as char
    } else {
        ((d - 10 + 0x61) as u32) as char
    }
}

/// Two lowercase hex characters per byte, high nibble first.
pub open spec fn hex_of(bytes: Seq<u8>) -> Seq<char> {
    Seq::new(
        2 * bytes.len(),
        |i: int|
            if i % 2 == 0 {
                hex_digit((bytes[i / 2] / 16) as nat)
            } else {
                hex_digit((bytes[i / 2] % 16) as nat)
            },
    )
}

fn hex_digit_exec(d: u8) -> (c: char)
    requires
        d < 16,
    ensures
        c == hex_digit(d as nat),
{
    if d < 10 {
        (d + 0x30u8) as char
    } else {
        (d - 10 + 0x61u8) as char
    }
}

/// 64-character lowercase hex Peer ID.
pub fn peer_id_hex(id: PeerId) -> (hex: String)
    ensures
        hex@ == hex_of(id@),
        hex@.len() == PEER_ID_HEX_LEN,
{
    let mut hex = String::new();
    let mut i: usize = 0;
    while i < PEER_ID_LEN
        invariant
            i <= PEER_ID_LEN,
            id@.len() == PEER_ID_LEN,
            hex@ == hex_of(id@).subrange(0, 2 * i),
        decreases PEER_ID_LEN - i,
    {
        let b = id.bytes[i];
        hex.push(hex_digit_exec(b / 16));
        hex.push(hex_digit_exec(b % 16));
        i = i + 1;
        assert(hex@ =~= hex_of(id@).subrange(0, 2 * i));
    }
    assert(hex_of(id@).subrange(0, 64) =~= hex_of(id@));
    hex
}

/// An ASCII hex digit, either case.
pub open spec fn is_hex_byte(b: u8) -> bool {
    (0x30 <= b <= 0x39) || (0x41 <= b <= 0x46) || (0x61 <= b <= 0x66)
}

/// The value of an ASCII hex digit.
pub open spec fn hex_value(b: u8) -> nat {
    if b <= 0x39 {
        (b - 0x30) as nat
    } else if b <= 0x46 {
        (b - 0x41 + 10) as nat
    } else {
        (b - 0x61 + 10) as nat
    }
}

/// Whether a 2-byte chunk is two hex digits.
pub open spec fn chunk_ok(c0: u8, c1: u8) -> bool {
    is_hex_byte(c0) && is_hex_byte(c1)
}

/// The byte that two hex digits spell, high nibble first.
pub open spec fn chunk_value(c0: u8, c1: u8) -> u8 {
    (16 * hex_value(c0) + hex_value(c1)) as u8
}

/// The Peer ID key bytes spelt by the UTF-8 bytes of a hex string: exactly
/// 64 bytes, each pair a base-16 byte.
pub open spec fn parse_peer_hex(text: Seq<u8>) -> Option<Seq<u8>> {
    if text.len() == PEER_ID_HEX_LEN && forall|i: int|
        0 <= i < PEER_ID_LEN ==> #[trigger] chunk_ok(text[2 * i], text[2 * i + 1]) {
        Some(Seq::new(PEER_ID_LEN as nat, |i: int| chunk_value(text[2 * i], text[2 * i + 1])))
    } else {
        None
    }
}

fn hex_byte_value(b: u8) -> (r: Option<u8>)
    ensures
        r == (if is_hex_byte(b) { Some(hex_value(b) as u8) } else { None::<u8> }),
{
    if 0x30 <= b && b <= 0x39 {
        Some(b - 0x30)
    } else if 0x41 <= b && b <= 0x46 {
        Some(b - 0x41 + 10)
    } else if 0x61 <= b && b <= 0x66 {
        Some(b - 0x61 + 10)
    } else {
        None
    }
}

fn chunk_byte(c0: u8, c1: u8) -> (r: Option<u8>)
    ensures
        r == (if chunk_ok(c0, c1) { Some(chunk_value(c0, c1)) } else { None::<u8> }),
{
    let lo = match hex_byte_value(c1) {
        Some(v) => v,
        None => return None,
    };
    match hex_byte_value(c0) {
        Some(hi) => Some(hi * 16 + lo),
        None => None,
    }
}

/// Parse a 64-character hex Peer ID. Case-insensitive.
///
/// This reads the 32 key bytes; whether they form a usable public key is
/// for the trust layer to say when the Peer ID is dialed.
pub fn peer_id_from_hex(hex: &str) -> (id: Option<PeerId>)
    ensures
        match parse_peer_hex(hex.spec_bytes()) {
            Some(bytes) => id matches Some(p) && p@ == bytes,
            None => id is None,
        },
{
    let text = hex.as_bytes();
    if text.len() != PEER_ID_HEX_LEN {
        return None;
    }
    let mut bytes = [0u8; 32];
    let mut i: usize = 0;
    while i < PEER_ID_LEN
        invariant
            i <= PEER_ID_LEN,
            text@ == hex.spec_bytes(),
            text@.len() == PEER_ID_HEX_LEN,
            bytes@.len() == PEER_ID_LEN,
            forall|j: int| 0 <= j < i ==> #[trigger] chunk_ok(text@[2 * j], text@[2 * j + 1]),
            forall|j: int|
                0 <= j < i ==> bytes@[j] == #[trigger] chunk_value(text@[2 * j], text@[2 * j + 1]),
        decreases PEER_ID_LEN - i,
    {
        match chunk_byte(text[2 * i], text[2 * i + 1]) {
            Some(v) => {
                bytes[i] = v;
            },
            None => {
                return None;
            },
        }
        i = i + 1;
    }
    let id = PeerId { bytes };
    assert(id@ =~= parse_peer_hex(hex.spec_bytes())->Some_0);
    Some(id)
}

/// `c` with the letters `a`–`f` made upper case.
pub open spec fn upper_hex_char(c: char) -> char {
    if 'a' <= c <= 'f' {
        ((c as u32) - 32) as char
    } else {
        c
    }
}

/// The byte of a hex digit character, and back to its value.
proof fn lemma_hex_digit_value(d: nat, upper: bool)
    requires
        d < 16,
    ensures
        ({
            let c = if upper { upper_hex_char(hex_digit(d)) } else { hex_digit(d) };
            &&& '\0' <= c <= '\u{7f}'
            &&& is_hex_byte(c as u8)
            &&& hex_value(c as u8) == d
        }),
{
}

/// The hex text of a Peer ID, in lower case or with its letters upper case,
/// parses back to that Peer ID.
pub proof fn lemma_peer_id_hex_round_trip(id: PeerId, upper: bool)
    ensures
        ({
            let text = if upper { hex_of(id@).map_values(|c: char| upper_hex_char(c)) } else { hex_of(id@) };
            parse_peer_hex(vstd::utf8::encode_utf8(text)) == Some(id@)
        }),
{
    let lower = hex_of(id@);
    let text = if upper { lower.map_values(|c: char| upper_hex_char(c)) } else { lower };
    assert forall|k: int| 0 <= k < text.len() implies '\0' <= #[trigger] text[k] <= '\u{7f}'
        && is_hex_byte(text[k] as u8)
        && hex_value(text[k] as u8) == (if k % 2 == 0 { id@[k / 2] / 16 } else { id@[k / 2] % 16 }) by {
        if k % 2 == 0 {
            lemma_hex_digit_value((id@[k / 2] / 16) as nat, upper);
        } else {
            lemma_hex_digit_value((id@[k / 2] % 16) as nat, upper);
        }
    }
    assert(vstd::utf8::is_ascii_chars(text));
    vstd::utf8::is_ascii_chars_encode_utf8(text);
    let bytes = vstd::utf8::encode_utf8(text);
    assert forall|i: int| 0 <= i < PEER_ID_LEN implies #[trigger] chunk_ok(bytes[2 * i], bytes[2 * i + 1])
        && chunk_value(bytes[2 * i], bytes[2 * i + 1]) == id@[i] by {
        assert(text[2 * i] as u8 == bytes[2 * i]);
        assert(text[2 * i + 1] as u8 == bytes[2 * i + 1]);
        assert((2 * i) / 2 == i && (2 * i + 1) / 2 == i && (2 * i) % 2 == 0 && (2 * i + 1) % 2 == 1);
        let b = id@[i];
        assert(16 * (b / 16) + b % 16 == b);
    }
    assert(parse_peer_hex(bytes)->Some_0 =~= id@);
}

/// The base-16 digits `0123456789abcdef`, in order of value.
pub open spec fn lower_hex_digits() -> Seq<char> {
    seq!['0', '1', '2', '3', '4', '5', '6', '7', '8', '9', 'a', 'b', 'c', 'd', 'e', 'f']
}

/// The base-16 digits `0123456789ABCDEF`, in order of value.
pub open spec fn upper_hex_digits() -> Seq<char> {
    seq!['0', '1', '2', '3', '4', '5', '6', '7', '8', '9', 'A', 'B', 'C', 'D', 'E', 'F']
}

/// Hex digit `d` is the `d`-th character of `0123456789abcdef`, so a Peer ID
/// is shown byte by byte as the standard lowercase base-16 digits of the
/// byte, high nibble first.
pub proof fn lemma_hex_digits_are_base16(bytes: Seq<u8>)
    ensures
        forall|d: nat| d < 16 ==> #[trigger] hex_digit(d) == lower_hex_digits()[d as int],
        hex_of(bytes).len() == 2 * bytes.len(),
        forall|i: int|
            0 <= i < bytes.len() ==> hex_of(bytes)[2 * i] == lower_hex_digits()[(#[trigger] bytes[i] / 16) as int]
                && hex_of(bytes)[2 * i + 1] == lower_hex_digits()[(bytes[i] % 16) as int],
{
    assert forall|d: nat| d < 16 implies #[trigger] hex_digit(d) == lower_hex_digits()[d as int] by {
        if d < 8 {
            if d < 4 {
                if d < 2 { if d == 0 {} else {} } else { if d == 2 {} else {} }
            } else {
                if d < 6 { if d == 4 {} else {} } else { if d == 6 {} else {} }
            }
        } else {
            if d < 12 {
                if d < 10 { if d == 8 {} else {} } else { if d == 10 {} else {} }
            } else {
                if d < 14 { if d == 12 {} else {} } else { if d == 14 {} else {} }
            }
        }
    }
    assert forall|i: int| 0 <= i < bytes.len() implies hex_of(bytes)[2 * i] == lower_hex_digits()[(
    #[trigger] bytes[i] / 16) as int] && hex_of(bytes)[2 * i + 1] == lower_hex_digits()[(bytes[i] % 16) as int] by {
        assert((2 * i) / 2 == i && (2 * i + 1) / 2 == i && (2 * i) % 2 == 0 && (2 * i + 1) % 2 == 1);
        assert(hex_digit((bytes[i] / 16) as nat) == lower_hex_digits()[(bytes[i] / 16) as int]);
        assert(hex_digit((bytes[i] % 16) as nat) == lower_hex_digits()[(bytes[i] % 16) as int]);
    }
}

/// Each character of `0123456789abcdef`, and of `0123456789ABCDEF`, is a hex
/// digit whose value is its position: parsing reads the standard base-16
/// value of each digit, in either case.
pub proof fn lemma_hex_value_is_base16()
    ensures
        forall|d: int|
            0 <= d < 16 ==> is_hex_byte(#[trigger] lower_hex_digits()[d] as u8) && hex_value(lower_hex_digits()[d] as u8) == d,
        forall|d: int|
            0 <= d < 16 ==> is_hex_byte(#[trigger] upper_hex_digits()[d] as u8) && hex_value(upper_hex_digits()[d] as u8) == d,
{
    assert forall|d: int| 0 <= d < 16 implies is_hex_byte(#[trigger] lower_hex_digits()[d] as u8) && hex_value(
        lower_hex_digits()[d] as u8,
    ) == d && is_hex_byte(upper_hex_digits()[d] as u8) && hex_value(upper_hex_digits()[d] as u8) == d by {
        if d < 8 {
            if d < 4 {
                if d < 2 { if d == 0 {} else {} } else { if d == 2 {} else {} }
            } else {
                if d < 6 { if d == 4 {} else {} } else { if d == 6 {} else {} }
            }
        } else {
            if d < 12 {
                if d < 10 { if d == 8 {} else {} } else { if d == 10 {} else {} }
            } else {
                if d < 14 { if d == 12 {} else {} } else { if d == 14 {} else {} }
            }
        }
    }
}

/// Which Relay the local Endpoint binds with.
#[derive(Debug, Clone, PartialEq, Eq)]
pub enum RelayChoice {
    /// The n0 public relays.
    N0Public,
    /// The Relay at this URL.
    Custom(String),
    /// No Relay.
    Disabled,
}

/// `--n0-public` selects the n0 relays, else `--relay` a custom one, else
/// there is none.
pub fn relay_config(args: &Args) -> (choice: RelayChoice)
    ensures
        args.n0_public ==> choice == RelayChoice::N0Public,
        !args.n0_public && args.relay is Some ==> (choice matches RelayChoice::Custom(url) && url@
            == args.relay->Some_0@),
        !args.n0_public && args.relay is None ==> choice == RelayChoice::Disabled,
{
    if args.n0_public {
        RelayChoice::N0Public
    } else {
        match &args.relay {
            Some(url) => RelayChoice::Custom(url.clone()),
            None => RelayChoice::Disabled,
        }
    }
}

/// Which key and trust stores the local Endpoint binds with.
#[derive(Debug)]
pub enum StoreChoice<'a> {
    /// Files under `dir`, the identity key sealed with `password`.
    File { dir: &'a PathBuf, password: &'a str },
    /// In memory: nothing is written.
    Memory,
}

/// `--data-dir` selects files there, with the given password or the empty
/// one; `--temp`, or neither flag, keeps everything in memory.
pub fn store_choice<'a>(args: &'a Args) -> (choice: StoreChoice<'a>)
    ensures
        args.data_dir is None ==> choice is Memory,
        args.data_dir is Some ==> (choice matches StoreChoice::File { dir, password } && *dir
            == args.data_dir->Some_0 && password@ == (match args.password {
            Some(p) => p@,
            None => Seq::<char>::empty(),
        })),
{
    proof {
        reveal_strlit("");
    }
    match &args.data_dir {
        Some(dir) => {
            let password: &str = match &args.password {
                Some(p) => p.as_str(),
                None => "",
            };
            StoreChoice::File { dir, password }
        },
        None => StoreChoice::Memory,
    }
}

/// How to come by the Identity Key of a file key store.
pub enum IdentityStep<K> {
    /// Use the key that was loaded.
    Use(K),
    /// There is none yet: generate one and save it.
    GenerateAndSave,
}

/// The key loaded from the store is used; when the store holds none, a new
/// one is generated and saved.
pub fn identity_step<K>(loaded: Option<K>) -> (step: IdentityStep<K>)
    ensures
        match loaded {
            Some(k) => step == IdentityStep::Use(k),
            None => step is GenerateAndSave,
        },
{
    match loaded {
        Some(k) => IdentityStep::Use(k),
        None => IdentityStep::GenerateAndSave,
    }
}

} // verus!
