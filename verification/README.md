# nsuite

Support code for a Switch overlay plugin: NVN GPU bootstrap state, memory
pools and allocators, gamepad input capture, and logging, with the decisions
and bookkeeping verified by Verus.

- `src/` is the verified library. `nmem` holds alignment arithmetic, linear
  pool allocators, command-buffer arenas and the Rive allocator bookkeeping;
  `ngpu` the runtime cache of NVN objects, the bootstrap decisions taken by the
  driver hooks and the debug-overlay state; `ninput` the gamepad model and the
  per-pair ring of recent input frames (held in a `ringbuf` ring buffer);
  `ncommon` the log sinks' state and the symbol cache.
- `app/` is the plugin glue around it: the hooks installed through skyline, the
  NVN calls, HID reads, file and TCP output, and floating-point overlay shapes.
- `tests/` exercises the library on concrete values.
