# x86_cpu

Verified building blocks for x86-64 system software, written in Verus.

- `src/` is the library. Every function carries a contract over a model of its
  type (the descriptor fields, the selector bits, the I/O permission bitmap as a
  sequence of bytes) and is proved by Verus: segment descriptors and the global
  descriptor table (`gdt`), gate descriptors and the interrupt descriptor table
  (`idt`), segment selectors and registers (`segment`), the task-state segment
  and its I/O permission bitmap (`tss`), batched edits of model-specific
  register values (`msr`), page-fault error codes (`error_code`) and the
  exception vectors (`exception`). Public proof functions state the laws that
  tie the operations together, such as reading back a field after setting it,
  or toggling a port range twice giving the bitmap back. Since the in-memory
  layout of Rust structs is not fixed, the structures the processor reads have
  verified encoders (`Gdt::table`, `idt::Descriptor::bits`, `Idt::encode`,
  `Tss::to_bytes`, `TssIoBitmap::to_bytes`) that give their bytes at the
  architectural positions.
- `app/` holds the instructions (`hlt`, `cli`, `rdmsr`, `lgdt`, ...) that load
  these structures into the processor; it hands the library plain values and
  performs the register writes the library decides on.
- `tests/` exercises the library on concrete values.
