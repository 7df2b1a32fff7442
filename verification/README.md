# my_voice_chat

A peer-to-peer voice chat: microphone samples are mixed down to mono,
resampled to 48 kHz, Opus-encoded in 20 ms frames and sent as datagrams over
iroh; received frames are decoded into a ring buffer that the speaker stream
plays from.

- `src/` is the verified library (Verus): the choice of each device's stream
  configuration (`audio`), the playback side's jitter buffer (`playout`), the
  frame and codec constants with the capture side's frame readiness (`codec`),
  and the call set-up decisions (`net`). Its laws are public proof functions
  next to the functions they speak of.
- `app/` is the program around it: device and stream handling with cpal, the
  Opus coder, the floating-point resamplers, and the iroh endpoint.
- `tests/` exercises the library on concrete values.
