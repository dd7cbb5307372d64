# gpui_embed

Host-independent logic of an embedded GPUI host, verified with Verus.

- `src/color.rs` — colors as four 8-bit channels, their packed `0xRRGGBBAA`
  form, and the interpolation color space.
- `src/hex.rs` — reading `#rgb`, `#rgba`, `#rrggbb` and `#rrggbbaa` (with
  surrounding whitespace) and writing `#rrggbbaa`, with the laws that tie
  the two together and to the schema pattern of the notation.
- `src/dispatcher.rs` — the main-thread work queue drained by the host's
  polling phase.
- `src/platform.rs` — input outcomes, host commands, the virtual display,
  the virtual window's input and status state, and its single window slot.
- `src/component.rs` — the theme palette and the tokens it installs, the
  button model and the root view.

`app/` holds what the verifier cannot take: the normalized floating-point
`Rgba`/`Hsla` colors, backgrounds and springs, serde and schema support, and
the threaded dispatcher that runs queued work.

Not present here are the parts that exist only on top of the GPUI crates
(`gpui`, `gpui_base`, `gpui_wgpu`), which cannot be built in this
environment: the `EmbeddedGpui` application handle, `EmbeddedConfig`, the
float `WindowMetrics` constructor and device-size conversion, `HostGpu`,
`OffscreenTarget`, and the GPUI trait impls of the window, platform and
components. The library keeps the state and decisions they rest on.
