# vibe_dictate

The core of a push-to-talk dictation client, verified with Verus: it streams microphone audio
to a speech recogniser over a websocket, and shows the newest text on a small status card.

- `src/` decides: addresses, wire encoding, resampling windows, the course of live sessions and
  file transfers, the transcript, and the card's wording, layout and window thread. It does no
  input or output. What holds of whole sessions is proved next to the code, in the functions
  whose names begin with `law_`.
- `app/` acts: sockets, files, the microphone, the Windows window, and floating-point
  arithmetic.
- `tests/` runs the core.

A session never touches the network itself. It asks its driver for one thing at a time
(`request`), is told what came of it (`step`), and says at the end how it went (`outcome`).
