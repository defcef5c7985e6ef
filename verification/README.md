# bluetooth

Linux Bluetooth socket support as a verified library: device addresses,
HCI/L2CAP/SCO/RFCOMM socket addresses, socket-option payloads and the PHY and
link-mode flag sets, together with the kernel byte layouts that carry them.

- `src/order.rs`: byte orders and the encoding of `u16`/`u32` fields.
- `src/protocol.rs`: Bluetooth protocol numbers.
- `src/addr.rs`: device addresses, socket addresses, their `sockaddr`
  images and the reading of those images back, with round-trip proofs.
- `src/sockopt.rs`: option payloads; `struct hci_ufilter` and
  `struct l2cap_options` images with round-trip proofs.
- `src/flags.rs`: flag sets with the operations and laws of `bitflags` types.
- `app/`: the system-call edge (handing an address to the kernel) and the
  `bitflags`-generated flag types with conversions.
