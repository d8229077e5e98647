# Snippet

Snippet is a small desktop assistant: highlight text in any application,
press a shortcut, and get a streamed answer from a local Ollama model.

This crate is its logic, written in Verus and verified:

- `src/prompt.rs` builds the chat messages for a quick action or a custom
  instruction.
- `src/selection.rs` normalizes captured text and drives the clipboard-based
  capture as a state machine (open the clipboard, wait for the shortcut to be
  released, send Copy, watch the clipboard, put the earlier text back).
- `src/settings.rs` holds the defaults, normalizes and validates a
  configuration, and works out which model is in effect.
- `src/provider/` holds the provider-neutral types and the decisions of the
  Ollama API (address, failure messages, stream lines and chunks), and
  `stream.rs` reads a streamed reply step by step: which deltas go out, in
  what order, and when and how the stream ends.
- `src/generation.rs` decides whether a generation may start, which one is
  current, which deltas are shown and what a finished one reports, and how
  the provider's state is shown;
  `src/cancellation.rs` holds the cancellation handles it hands out.
- `src/screen.rs` scales a screen capture down when it is too large, encodes
  it as PNG and in Base64; `src/popup.rs` places the popup.
- `src/text.rs` has the character-level helpers (Unicode whitespace, trimming).

`app/` is the Tauri shell around it: commands, events, the settings file, the
HTTP client, the Windows clipboard and keyboard, and grabbing the monitor under the cursor.
