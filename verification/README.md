# axhal (LoongArch64)

The hardware-abstraction layer of a small kernel on the QEMU LoongArch64
virt machine, with its register logic verified by Verus.

- `src/` is the verified library. Control and status registers are plain
  `u64` values in a `csr::CsrFile`, which also records every CSR write in
  order. `bits` reads and writes register fields (through the `bit_field`
  crate); `arch`, `boot`, `time`, `irq`, `platform` and `trap` are the CSR
  operations, the trap decoding and the IRQ handler table; `console` is the
  UART protocol as step functions.
- `app/` is the hardware glue: `csrrd`/`csrwr`, MMIO, I/O ports, the console
  lock and the hardware side of the trap handler (the boot path and the
  assembly trap entry are not part of it). It fills a `CsrFile` from the registers, runs a
  library operation and replays the recorded writes.
- `tests/` runs the library on concrete register values.
