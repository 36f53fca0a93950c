# p2p_chat

The verified core of a peer-to-peer terminal chat, written in Verus.

- `src/frame.rs`: `[u32 big-endian length][payload]` frames, the 1 MiB
  payload limit, and the steps of reading a frame from a byte stream.
- `src/command.rs`: the REPL line parser (chat text and Slash Commands).
- `src/store.rs`: Peer IDs and their 64-character hex form; the choice of
  key/trust stores and Relay from the startup flags.
- `src/cli.rs`: startup flags (parsed with clap) and the choices that follow
  from them.
- `src/ui.rs`: Trust State labels, the prompt, and the rendered output lines.
- `src/repl.rs`: the decisions of the REPL event loop as a state machine.
- `src/text.rs`: character classes and string building.
- `app/`: the program around the library: terminal, network Sessions, JSON
  payloads, and the event loop that performs the work the library asks for.
