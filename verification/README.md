# ferrink

A verified library for a small launcher on Linux-based E Ink readers: device
inventory and its redaction, device profiles, traces, input decoding and touch
replay, framebuffer conversion and refresh policy, the shell's state machine,
the literary clock, and the guardian protocol.

- `src/` is the library. Every executable function carries a contract, except
  the three wrappers that hand out an outside crate's error text, of which
  nothing is promised. The public proof functions named `law_*` state what holds
  across functions.
- `tests/` runs the library on concrete values.
- `app/` is ordinary Rust around it: files, processes, kernel calls,
  serialization, and the floating-point pattern.
