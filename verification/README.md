# Polyglot

Live speech translation with OpenAI's `gpt-realtime-translate` model: what you say is spoken in
another language, and what the other side says comes to you in English.

`src/` is the library, verified with Verus: the messages to and from the service (`protocol`,
`json`, `codec`), sessions and what they do about everything that happens (`session`, `console`),
the coordinator that runs at most one session per direction (`coordinator`, `status`), the audio
itself (`pcm`, `ring`, `playback`), and the choice of languages, devices and processes (`target`,
`devices`, `processes`, `sidecar`).

`app/` is the program around it: `polyglot` on the command line and `polyglot-app` in the menu
bar. It owns the devices, the connection and the clock, and does what is left to floating point.

The crates `serde_json`, `base64` and `ringbuf` are called from the library through small
functions whose contracts are trusted; each says in its documentation what is claimed.
