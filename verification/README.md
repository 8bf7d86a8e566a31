# retro_cores

Emulation cores for 8-bit machines, written in Verus and verified against
their contracts:

- `mos6502`: the 6502 family (NMOS 6502/6510/6507, Ricoh 2A03, R65C02,
  W65C02) with configurable quirks, banked memory with an optional Apple 1
  PIA, the full opcode table (undocumented opcodes included), disassembly,
  and an `Emulator` with interrupts, save states and run loops.
- `chips`: the 6551 ACIA, the 6520/6821 PIA and the 6522 VIA.
- `chip8`: a CHIP-8 interpreter (CPU, instruction set, font memory, quirks
  configuration) and two machines built on it.
- `devices`: a pixel display, a hex keypad, flat memory and seven-segment
  rendering.
- `machines`: the Ben Eater 6502 (with a generated serial monitor ROM), the
  KIM-1, the Commodore PET 2001 and the Apple 1.

`src/` is the verified library. `tests/` runs it on concrete inputs.
`app/` holds what the library does not: the JSON forms of configurations and
saved states (serde) and the WebAssembly exports (wasm-bindgen).
