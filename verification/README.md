# koholint

A Game Boy (DMG) emulator core whose behaviour is stated in contracts and
proved with Verus.

- `src/` — the verified library:
  - `cpu.rs`: the register file and its flags;
  - `memory.rs`: the address space, cartridge mapping and hardware registers;
  - `decoding.rs`: the instruction decoder, disassembly and the text of instructions;
  - `semantics.rs`: the meaning of every instruction as a function on machine states;
  - `gameboy.rs` (with `gameboy/render.rs` and `gameboy/checks.rs`): the console, its
    step (instruction, interrupts, timers, screen lines) and its pictures;
  - `ppu.rs`: the pictures as functions of video memory;
  - `debugger.rs`, `command.rs`, `emulator.rs`: breakpoints, the debugger's commands
    and the state behind the emulator window;
  - `input.rs`: buttons and key events; `text.rs`: hexadecimal and decimal text;
  - `instructions.rs`: a first, small decoder kept beside the full one.
- `app/main.rs` — the program: reads the ROM file, runs the console in a window,
  and drives the debugger's prompt on the terminal.
- `tests/` — tests run against the compiled library.
