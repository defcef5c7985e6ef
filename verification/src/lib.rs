//! Linux Bluetooth socket types and constants: device and socket addresses,
//! socket-option payloads and flag sets, with the kernel byte layouts that
//! carry them across the system-call boundary.

pub mod addr;
pub mod flags;
pub mod order;
pub mod protocol;
pub mod sockopt;

pub use addr::{
    BdAddr, BdAddrType, Errno, HciChannel, HciDevice, SocketAddrAny, SocketAddrHci,
    SocketAddrL2cap, SocketAddrRfcomm, SocketAddrSco,
};
pub use flags::{BluetoothPhy, L2capLinkMode};
pub use order::ByteOrder;
pub use protocol::Protocol;
pub use sockopt::{
    BluetoothChannelPolicy, BluetoothMode, BluetoothPower, BluetoothSecurity,
    BluetoothSecurityLevel, BluetoothVoice, BluetoothVoiceSetting, HciFilter, L2capConnInfo,
    L2capMode, L2capOptions,
};
