# sim_core

The core of a drag- and roll-race simulator, verified with Verus.

`src/` is the verified library. Measurements (weights, powers, ratios, times)
travel through it as an opaque scalar type `N`: the library selects, copies
and compares them, but all arithmetic on them is supplied by the caller as
functions, and the contracts speak of what those functions return.

- `types` — the data model: partial car inputs, resolved cars whose every
  value is tagged with its origin, race presets and results.
- `config` — profile tables (names mapped to profiles), the layered profile
  configuration, and the reading of race-preset entries.
- `estimation` — the resolution cascade: user value, vehicle-class profile,
  transmission or drivetrain profile, derivation, global default.
- `confidence` — field weights, confidence weights and per-field breakdowns,
  with the laws of the score.
- `validation` — range and consistency checks of a car's input.
- `solver` — deciding each race and assembling a comparison of two cars.
- `catalog` — which files in a directory are car configurations.
- `text` — decimal rendering.

`app/` holds what is floating-point arithmetic or I/O: unit conversions, the
time-step physics, TOML loading, and the `f64` front ends of the library.
