# bonanza-bridge-fw (verified logic)

The pure decision logic of the Bonanza bridge firmware, written in Verus and
proved against its contracts:

- `src/safety.rs` — the local output interlock: safe boot, the armed lease,
  the trip latch, ordered power/reset/fan requests, the status report and its
  17-byte encoding. Every `SafetyPolicy` method is specified as a transition
  of the abstract `PolicyState`.
- `src/safety_laws.rs` — properties across operations: the state invariant
  and its preservation, safe outputs outside a controlled session, lease
  gating, the fault latch, status coherence and payload layout.
- `src/uart_timing.rs` — PIO UART clock divider, sample points, and the
  ASIC RX DMA-ring window.
- `src/image_manifest.rs` — the 96-byte image manifest and its CRC-32.
- `src/info.rs` — protocol version and firmware version string.
- `src/status_buffer.rs` — the `heapless::Vec<u8, 32>` the status is encoded
  into, with the contracts of the two `heapless` calls the encoder makes.

`tests/` exercises the library on concrete values.
