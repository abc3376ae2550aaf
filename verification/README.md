# linux_cec

A library for the Linux HDMI CEC (Consumer Electronics Control) userspace
interface, written in Verus: the wire format of CEC messages and of their
operands, the CDC messages, the kernel's data structures, and the decisions a
CEC device makes on what the kernel hands it, each with a contract that Verus
proves.

Layout:

- `src/` — the verified library.
  - `error.rs` — errors and the ranges they report.
  - `codec.rs` — the `OperandEncodable` trait: encoding, decoding, and the
    round-trip law every operand type proves.
  - `operand/` — the operand types: one-byte codes, bit fields, flags,
    scalars, services and tuner state, timer status, buffers and the
    tagged-length buffers.
  - `message.rs`, `cdc.rs` — CEC and CDC messages, with their round-trip laws.
  - `address.rs`, `mode.rs`, `sys.rs` — addresses, device modes and the
    kernel interface's structures.
  - `device.rs` — framing messages to send, reading received ones, events,
    poll results, connector data, the logical address and name requests.
  - `edid.rs` — the physical address announced in an EDID.
  - `daemon.rs` — the decisions of a system CEC service: answering received
    messages, following state changes, choosing a physical address,
    retrying the release of logical addresses, standing by and waking with
    the system, and mapping remote control buttons to keys.
- `tests/` — tests of the library on concrete values.
- `app/` — device access: opening `/dev/cecN`, the ioctls and polling, over
  the library's decisions, and the service's I/O around `daemon.rs`.
