# ferrocene_poc

Safety logic of a brake-by-wire controller and an airbag deployment unit,
with every decision proved against its contract.

- `src/` — the library, with its proofs. The controllers are generic over the
  physical quantity they carry (pressure, acceleration) and decide from the
  outcome of comparing readings against their calibration: the brake state
  machine with its fault and emergency locks, the 2-of-3 sensor vote, and the
  deployment decision. Proof functions state the laws of the state machine
  and of the vote.
- `app/` — the demo program and the `f32` front ends that make the
  floating-point comparisons and hand their outcome to the library.
- `tests/` — tests of the library.
