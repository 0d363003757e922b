# clinker6502_core

The CPU core of the Clinker 6502 emulator, written in Verus.

- `src/bus.rs`: the `Bus` trait through which the CPU reaches memory and I/O,
  and `le_word`, the little-endian word of two bytes.
- `src/cpu/decode.rs`: addressing modes, mnemonics and the opcode table,
  with `decode_table` as its specification.
- `src/cpu/interrupt.rs`: the reset, NMI and IRQ vectors and entry sequences.
- `src/cpu/mod.rs`: the status byte, the `Cpu` register file and the
  fetch/decode/execute step, specified by `step_spec` for whatever bytes the
  bus answers and, on a bus that keeps an access record, by `step_accesses`
  for the addresses read, with the laws that hold of every step.

`tests/` runs the core against in-memory buses.
