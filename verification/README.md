# video_hw

Building blocks for hardware video whose behaviour is stated in contracts and proved by Verus.

- `src/` is the library. `bitstream`, `bits`, `pixel`, `frame` and the modules of plain types hold
  what all codecs share; `av1` reads AV1 streams and plans their decoding; `hevc` plans HEVC
  encoding; `vulkan` makes the choices that a device leaves open; `backend` turns what a device
  gives back into frames and packets. Public proof functions named `law_..` state what holds of
  several functions together.
- `tests/` runs the library on concrete values.
- `app/` talks to the devices through `ash` and `vk-video`. It is ordinary Rust around the
  library: it asks, records and submits, and leaves the decisions to the library.

A few functions of std and of `ash` are trusted: `str::trim` and `str::to_ascii_lowercase` in
`text`, and the names that `ash` gives to formats, image usages, syntax flags and rate control modes in
`vk_names`.
