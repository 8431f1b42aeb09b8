# touchhle

Verified pieces of an iPhone OS emulator's guest support, written in Verus.

- `src/a64_abi.rs`: reading arguments from and writing results to the
  registers of an AArch64 guest context.
- `src/corrupt.rs`: a deterministic memory-corruption stress tester. The
  schedule, the SplitMix64 generator and the choice of each target byte are
  verified; the caller performs the writes and reports their outcome.
- `src/gles/gles1_on_gles2_logging.rs`: the state behind the GLES1-on-GLES2
  translation log (viewport and scissor tracking, change-only logging, scissor
  synchronisation, read-back deduplication) and the per-operation tracer.
- `app/`: the host side: environment switch, process-wide state, log output,
  the floating-point diagnostics, and the loop that applies corruption targets
  to guest memory.
