# drogue_device

Logic of a device runtime, verified with [Verus](https://github.com/verus-lang/verus).

- `src/actor.rs`, `src/address.rs`: addresses of actors, and what reaches an actor through one.
- `src/change_cipher_spec.rs`: reading the change-cipher-spec record of a TLS connection.
- `src/lora.rs`, `src/region.rs`, `src/downlink.rs`, `src/device.rs`: a LoRa driver on top of the
  `lorawan-device` stack.

The library does not wait, read or send. It says what is to be done next, and is told what came of
it. `app/` holds the code that does the waiting, reading and sending.

What is taken on trust is marked `external_body` in `src/region.rs` and `src/downlink.rs`, with the
outside function that it stands for.
