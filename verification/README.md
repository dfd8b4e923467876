# prdt_media

Screen capture, conversion, and H.264 and HEVC coding for remote desktops on Linux,
verified with Verus.

- `src/` is the library. Every function states what it returns or changes, and Verus
  proves it.
  - `media_sw`: I420 frames, conversion from BGRA and to NV12, OpenH264.
  - `media_linux`: the producers, the X11 capture, and the Wayland portal with its
    stream, cursor and format parameters.
  - `media_policy`: which encoder backend is used, how its health is judged, and when
    another one takes over.
  - `media_ffmpeg`: how FFmpeg's HEVC encoders and decoders are set up, fed, drained
    and released.
  - `protocol`, `media_core`, `clock`, `text`: the types and helpers that these share.
- `tests/` runs the library on concrete values, OpenH264 linked.
- `app/` is ordinary Rust: the X server, the portal, PipeWire, FFmpeg, threads, files,
  the clock, and the few formulas in floating point.

Laws that relate several functions are public proof functions; their names begin with
`law_`. What is believed without proof are the wrappers around OpenH264, `bytes`,
`ashpd` and a few functions of the standard library; each says in its comment what it
claims.
