# zenavif

The verified core of an AVIF encoder/decoder library, written in Verus.

`src/` holds the logic whose behaviour is stated in `requires` / `ensures`
contracts and proved:

- `settings`, `plan` — encoder settings and the static encode plan
  (speed-preset tables, overrides, tile counts, bit depth, the lossless gate).
- `backend`, `svt_params`, `mux` — per-backend policy: preset mapping,
  depth and geometry refusals, key-frame parameters, container facts.
- `heuristics` — threading and memory-budget models.
- `obu`, `detect`, `image_info`, `cicp`, `avif_container` — AV1 sequence
  headers, file probing and colour signalling; container parsing goes
  through `zenavif-parse` behind trusted wrappers.
- `pixels`, `identity`, `planes`, `grid`, `strip` — pixel kernels, identity
  (GBR) conversion, grid canvas stitching and strip streaming.
- `animation`, `playback` — animation validation and frame stepping.
- `route`, `knobs`, `gain_map` — route cache keys, knob summaries, gain maps.

Public `law_*` proof functions state the properties that span several
functions (monotonicity, idempotence, round trips, stream/canvas agreement).

`app/` is ordinary Rust around the library: configuration with floating-point
qualities, error types with `Display`, serde wire formats and resource
estimates. `tests/` exercises the library on concrete values.
