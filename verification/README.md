# TRIOPS

A RISC-V (RV32IMAC) emulator of the SiFive HiFive1 Rev B board. The emulator
core is a library whose functions carry contracts that Verus proves; the
program around it (command line, terminal front-end, UART threads) is plain
Rust.

## Layout

- `src/` — the verified library:
  - `decoder/` — decoding of the four encoding quadrants (`decode`),
  - `instructions.rs` — the instruction set, decompression and printing,
  - `register.rs` — general purpose and control and status registers,
  - `memory.rs` — the board's memory map, with the read-after-write and
    read-only-ROM laws,
  - `cpu/` — the hart: `exec` (one instruction), `step` (interrupts,
    fetch, execute, log) and loading of raw binaries and ELF executables,
  - `input.rs`, `view.rs` — the state of the terminal front-end and the text
    of its panes,
  - `events.rs` — the decisions of the CPU thread and the lines printed for
    observed jumps,
  - `cli.rs` — reading addresses given in hex or decimal,
  - `bits.rs`, `text.rs` — bit manipulation and number formatting.
- `tests/` — tests of the library on concrete programs and values.
- `app/` — the `triops` program: `main`, argument parsing, the headless and
  terminal front-ends, the UARTs and unix socket mapping.

## Running

```txt
triops [--headless] [--uart0 <SOCKET>] [--uart1 <SOCKET>] [--testing]
       [--bin [--entryaddress <ADDR>] [--baseaddress <ADDR>]] <FILE>
```

In the terminal front-end: `a` toggles auto-step, `s` executes one
instruction, `h` shows the help, `i` enters insert mode for typing input to
UART0 (`enter` sends it, `esc` leaves), `q` quits.
