# kjit

A verified library for a just-in-time rewriter of AArch64 user code, and for
the tools that check it.

## Layout

- `src/shared/` — the rewriter's core: the A64 instruction set and its codec,
  control-flow discovery (`trans/cfg.rs`), rephrasing of each block
  (`trans/rephrase.rs`), register checks (`trans/reg_virt.rs`), and the
  layout of an executable fragment with its prologue and epilogue
  (`emit/layout.rs`).
- `src/harness/` — the reference side: a machine model, an interpreter for
  original code, a stepper for translated fragments with their runtime, the
  comparison of the two, the records of each stage of a translation, and the
  explorer's state machine and mouse handling.
- `src/assem.rs`, `src/lifter.rs`, `src/utils.rs` — the template assembler,
  the lifter's decisions, and small helpers.
- `src/specgen/` — the instruction-spec generator's logic: which XML files a
  form subset needs, which forms to keep, and which roles each field plays.
- `app/` — a command-line front end that prints a rephrased program.
- `tests/` — tests run against the compiled library.

## What is not here

- The terminal explorer's drawing and event loop, and the dynamic loading of
  its rendering library: they are screen and terminal I/O. The explorer's
  decisions (keys, mouse, layout) are in `src/harness/`.
- The kernel module's translator that disassembles through the capstone C
  library and runs inside the kernel (its control-flow analysis,
  preprocessing and code generation): it works on raw capstone records
  through a foreign interface and on kernel services, which cannot be built
  here, and its helper modules are not part of this source.
- The generator's XML reading and its JSON and Rust output: file I/O and a
  tree parser; the logic that decides on the parsed data is in
  `src/specgen/`.
