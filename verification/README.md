# gameboy

Components of a Game Boy / Game Boy Color emulator, written in Verus: the
memory bus and I/O register map, the picture unit, the audio unit, cartridges
and DMA. Each is stated against a mathematical model (spec functions over
integers, sequences and views) and its implementation is proved to meet it.

What is not here: the CPU (instruction decoding and execution), the timer and
the M-cycle clock that drives the CPU, the timer and OAM DMA together. Without
them the library does not run programs; the machine type `state::Gameboy`
holds everything else and exposes the bus (`read`/`write`, and
`read_from`/`write_from` with access blocking), the I/O register map
(`IORegisters`), interrupt selection, OAM DMA one M-cycle at a time, VRAM DMA
(a general-purpose transfer is copied when HDMA5 is written, without advancing
any clock), `tick_t_states` (the picture unit and HBlank DMA, dot by dot), and
cartridge loading. DIV, TIMA, TMA and TAC are kept as plain stored registers.
The boot ROM images of both models are handed to the machine when it is built.

## Layout

- `src/apu*` — the audio unit: frequency timers, length counters, volume
  envelopes, sweep, the noise LFSR, the frame sequencer and the register file.
- `src/cartridge*` — header checks, ROM/RAM banks and the MBC1, MBC2, MBC3 and
  MBC5 bank controllers.
- `src/ppu*` — the picture unit: LCDC/STAT, colour palette memory, sprites,
  tile fetching, the pixel FIFOs and the mode state machine.
- `src/dma_controller.rs`, `src/oam_dma.rs` — the VRAM and OAM DMA engines.
- `src/state.rs` — the machine: bus reads and writes (boot ROM overlay, banked
  VRAM and work RAM, echo RAM, OAM, high RAM, IE), the I/O register map, cartridge
  loading, OAM DMA and VRAM DMA copies, and STOP.
- `src/memory_mapper.rs`, `src/io_registers.rs`, `src/cgb.rs`,
  `src/controller.rs` — the memory map, access blocking, I/O register storage,
  the joypad and speed switching.
- `src/debugger.rs` — breakpoints and the event record.
- `app/` — what stays outside the proofs: floating-point audio mixing and
  buffering, the process-wide debugger and its `log` sink, bit-flag sets, and
  serialisable copies of the screen and save-state types.
- `tests/` — executable tests of the library.

Each law of the library (read-after-write of registers and RAM, timing of
the timers, frame sequencer and scanlines, DMA copy order, and so on) is a
public `proof fn` next to the code it speaks of.
