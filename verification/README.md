# Waves oscillator units for the NTS-1 digital kit mkII

Oscillator units (Waves, Table32, Dummy) for the logue-SDK runtime.

- `src/` — the verified control logic: runtime descriptor checks and API
  compatibility (`unit`), the Waves header data (`header`), the Waves parameter
  choices, the events they raise, and wave bank selection (`waves`), the Table32 and
  Dummy control state (`table32`, `dummy`), and the sign-bit helper used by
  rounding (`util`). Laws about these are proof functions next to the code.
- `app/` — the C callbacks the runtime calls, the atomic word that carries
  events from the callbacks to the audio thread, the unit header placed for
  the runtime, the declarations of the runtime's C functions and wave tables,
  and the floating-point signal path.
- `tests/` — tests of the library on concrete values.
