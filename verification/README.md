# wispr_core

The verified core of Wispr, a desktop dictation tool: speech is transcribed
(Deepgram or local Whisper), finalized segments may be interpreted by an
OpenAI-compatible model, and the result is typed into the focused window.

`src/` is a Verus library; every function in it carries a contract that Verus
proves. The calls it makes into other crates (`serde_json`, `dirs`,
`webrtc-vad`, parts of std) go through small trusted wrappers whose doc
comments say what is assumed of them.

Modules:

- `text`: string helpers and their specifications (trim, case, search,
  split, join, replace).
- `models`, `config`, `error`: the data model, the configuration and its
  defaults and paths, the error type.
- `transcript`, `typing`, `session`, `daemon`, `writing`, `status`: how the
  transcript on screen evolves, the edit that turns one rendering into the
  next, the decisions of a running session, autonomous writing runs, and the
  daemon's status updates.
- `llm`, `shortcuts`, `payload`, `stream`: validating the interpreter's
  decisions, resolving and policing keyboard actions, writing request bodies
  as JSON, and decoding streamed and plain responses.
- `keyboard`: key plans for the virtual keyboard and macOS key codes.
- `segmenter`, `audio`, `deepgram`, `whisper`: voice activity segmentation,
  microphone discovery, Deepgram messages, the local Whisper runtime.
- `app_context`, `overlay`, `reports`, `settings`, `install`, `secrets`,
  `ipc`, `platform`: focus classification, overlay contents, texts for
  people, the settings form, install artifacts, keyring entries, the daemon
  socket.

`tests/` runs the library on concrete values. `app/` is `wisprctl`, the
command-line tool, around the library: argument parsing, files, processes,
the keyring, the daemon socket and HTTP.
