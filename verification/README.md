# jimbot

A Game Boy (DMG) emulator core, written in Verus: every function of the
library carries a contract, and Verus proves the code against it, except
four small trusted wrappers around outside calls whose contracts are taken
on trust: `String::from_utf8` (`text.rs`), `pretty_hex::config_hex`
(`dump.rs`), and `base64::encode` / `base64::decode` (`storage.rs`), each
documented where it stands.

## Layout

- `src/cpu`: the SM83 CPU as chains of micro-operations. `semantics.rs`
  states what each micro-operation does (`effect`), `decoder.rs` and
  `opcodes.rs` what each opcode decodes to, `executor.rs` runs them, and
  `machine_cycle.rs` is one machine cycle with interrupt dispatch (`cycled`).
- `src/mmu`: the bus. `MmuState` is its model; `read` and `written` state what
  a read gives and what a write changes, with DMA, joypad, interrupt and
  LCD registers.
- `src/cartridge`: the header, and ROM-only, MBC1, MBC1+RAM, MBC2, MBC3 and
  MBC5 cartridges; no write changes a ROM image.
- `src/ppu`: line timing and STAT (`line_stat`), OAM search, the background
  and sprite fetchers, the pixel FIFOs and the pixel transfer.
- `src/apu`, `src/timer.rs`: the four sound channels and the timer.
- `src/jimbot.rs`: the console; `run` is one machine cycle, `run_frame` one
  frame with its keys.
- `src/screen.rs`, `src/dump.rs`, `src/storage.rs`: what the front ends
  compute: the picture as RGBA bytes, hex dumps of memory (through
  `pretty-hex`), and battery saves as base64 text (through `base64`).
- `app/`: a headless front end that reads a ROM, a boot ROM and a save file,
  runs frames and writes the last picture.
- `tests/`: scenarios on concrete values.
