# gb_emu

A Game Boy (DMG) emulator whose core is written in Verus: every device's
behaviour is stated as a contract and proved.

## Layout

- `src/` — the verified library.
  - `cpu.rs`, `alu.rs`, `instr.rs` — registers, flags, the arithmetic unit
    and the whole SM83 instruction set, each instruction's effect given by
    `instr::execute_spec`.
  - `mmu.rs` — the memory bus: 64 KiB of RAM with its echo region, and the
    devices that answer for address ranges, asked in registration order.
  - `io/` — boot ROM, interrupt controller, timer, joypad, PPU, APU (four
    channels) and the cartridge with its bank controllers.
  - `emu.rs` — the machine: one step is a pending OAM DMA, one instruction,
    the devices catching up, and interrupt dispatch.
  - `gui.rs` — buttons, key handling decisions, nearest-neighbour scaling
    and the splash screen.
  - `codegen.rs` — the instruction-table model and the text helpers that
    turned operands into Rust expressions for the decoder.
- `tests/` — tests run against the compiled library.
- `app/` — the program: command line, ROM loading, window, sound output
  and the frame-paced loop.
