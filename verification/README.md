# grafton_ndi

A verified core for working with the NDI 6 SDK, written in Verus.

`src/` is the library. It decides everything about NDI data that can be
decided without the SDK itself, and proves it:

- `format`, `video`, `audio`, `audio_frame`, `metadata`: pixel formats and
  buffer sizes, validation of the frames the SDK hands over, owned frames and
  their builders, the SDK form of outgoing frames, and laws that reading back
  that form gives the same frame.
- `image`: conversion of frames to RGB/RGBA rows and their export as PNG, JPEG
  or data URL through the `png`, `jpeg-encoder` and `base64` crates.
- `finder`: source addresses, matching a source by host, and the source cache,
  with the law that its length counts the hosts found since the last clear.
- `receiver`, `capture`, `framesync`, `sender`: receiver, frame-sync and sender
  settings, capture outcomes, status and statistics, and the retry rule of
  reliable capture as a step function (`retry_step`) with laws over every run
  of reports: what each poll and pause may last, that a frame returned is the
  first one polled, and that a timeout counts the polls made.
- `runtime`, `waitable_completion`: the lifecycle of the shared runtime and the
  wait rule of completions, as state machines.

`app/` makes the SDK calls around it: the C declarations, the runtime handle,
discovery, receivers, frame-syncs, senders and the Tokio / async-std receivers.
It holds the locks, threads and clocks and passes plain values to the library.

`tests/` runs the library with the real outside crates linked.
