# pump_control

The verified core of Hardwave PumpControl, a sidechain / volume-shaper
plug-in. The library (`src/`) holds the parts of the plug-in that work on
plain values, each with a contract that Verus proves:

- `trigger` — trigger modes, musical sync rates (parameter index, label,
  beats per cycle as an exact fraction) and `TriggerLogic`, which decides per
  sample whether the phase holds (transport stopped), follows the transport,
  or advances, and whether it restarts first (sidechain rising edge, pending
  MIDI note-on).
- `curve` — curve points in thousandths, the default pump curve and the
  binary search that finds the segment a phase falls in.
- `presets` — the built-in preset catalog and lookup by name.
- `param_ids` — the ids of the parameters the editor may set.
- `editor_size` — the editor's default size and its bounds.
- `update_counter` — pacing of the state packets sent to the editor.

`app/` is the plug-in around it: the nih_plug host glue, the webview editor,
and the floating-point signal path (crossover, curve interpolation, metering,
phase accumulation), which calls into the library for every decision above.
Preset curves are stored in thousandths; `x as f32 / 1000.0` gives exactly
the `f32` of the decimal the curve was designed with. The reason: every
integer in -1000..=1000 is exact in `f32`, and IEEE division rounds
correctly, so the quotient is the `f32` nearest to the decimal, which is also
what the decimal literal parses to. The test
`thousandths_convert_to_the_f32_of_their_decimal` checks this for every
value in -1000..=1000 against the parsed decimal. Sync-rate fractions work the
same way in `f64` (for example `1.0 / 3.0`).
