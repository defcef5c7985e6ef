//! Bluetooth device addresses and socket addresses.

use crate::order::{
    host_order, lemma_u16_bytes_of_value, lemma_u16_roundtrip, u16_bytes, u16_from_bytes, u16_to_bytes, u16_value, ByteOrder,
};
use vstd::prelude::*;
use vstd::slice::slice_to_vec;

verus! {

/// `BDADDR_BREDR`.
pub const BDADDR_BREDR: u8 = 0x00;
/// `BDADDR_LE_PUBLIC`.
pub const BDADDR_LE_PUBLIC: u8 = 0x01;
/// `BDADDR_LE_RANDOM`.
pub const BDADDR_LE_RANDOM: u8 = 0x02;
/// `HCI_DEV_NONE`.
pub const HCI_DEV_NONE: u16 = 0xffff;
/// `HCI_CHANNEL_RAW`.
pub const HCI_CHANNEL_RAW: u16 = 0;
/// `HCI_CHANNEL_USER`.
pub const HCI_CHANNEL_USER: u16 = 1;
/// `HCI_CHANNEL_MONITOR`.
pub const HCI_CHANNEL_MONITOR: u16 = 2;
/// `HCI_CHANNEL_CONTROL`.
pub const HCI_CHANNEL_CONTROL: u16 = 3;
/// `HCI_CHANNEL_LOGGING`.
pub const HCI_CHANNEL_LOGGING: u16 = 4;

/// `AF_BLUETOOTH`, the address family of every Bluetooth socket address.
pub const AF_BLUETOOTH: u16 = 31;
/// The size of the kernel's `struct sockaddr_hci`.
pub const SOCKADDR_HCI_SIZE: usize = 6;
/// The size of the kernel's `struct sockaddr_l2`.
pub const SOCKADDR_L2_SIZE: usize = 14;
/// The size of the kernel's `struct sockaddr_sco`.
pub const SOCKADDR_SCO_SIZE: usize = 8;
/// The size of the kernel's `struct sockaddr_rc`.
pub const SOCKADDR_RC_SIZE: usize = 10;

/// The errors that reading a socket address can give.
#[allow(non_camel_case_types)]
#[derive(Debug, Clone, Copy, PartialEq, Eq, Hash)]
pub enum Errno {
    /// `EAFNOSUPPORT`: the address belongs to another address family.
    AFNOSUPPORT,
    /// `EINVAL`: the address is too short for its family.
    INVAL,
}

impl Errno {
    /// The raw Linux error number.
    pub fn raw_os_error(self) -> (r: i32)
        ensures
            r == (match self {
                Errno::AFNOSUPPORT => 97i32,
                Errno::INVAL => 22i32,
            }),
    {
        match self {
            Errno::AFNOSUPPORT => 97,
            Errno::INVAL => 22,
        }
    }
}

/// A socket address of any family, as the bytes of the kernel's `sockaddr`
/// structure together with the byte order its host-order fields are in.
/// The bytes always hold at least the two-byte address family.
#[derive(Debug)]
pub struct SocketAddrAny {
    order: ByteOrder,
    bytes: Vec<u8>,
}

/// The address family stored in the first two bytes of `bytes`.
pub open spec fn family_of(o: ByteOrder, bytes: Seq<u8>) -> u16 {
    u16_value(o, bytes[0], bytes[1])
}

impl SocketAddrAny {
    #[verifier::type_invariant]
    spec fn holds_family(self) -> bool {
        self.bytes@.len() >= 2
    }

    /// The byte order of the host-order fields, as contracts speak of it.
    pub closed spec fn spec_byte_order(&self) -> ByteOrder {
        self.order
    }

    /// The bytes of the `sockaddr` structure, as contracts speak of them.
    pub closed spec fn spec_bytes(&self) -> Seq<u8> {
        self.bytes@
    }

    /// A socket address made of the `sockaddr` bytes `bytes`, whose
    /// host-order fields are in order `order`; `None` when `bytes` is too
    /// short to hold an address family.
    pub fn from_bytes(order: ByteOrder, bytes: Vec<u8>) -> (r: Option<SocketAddrAny>)
        ensures
            r is None <==> bytes@.len() < 2,
            r matches Some(a) ==> a.byte_order() == order && a.spec_bytes() == bytes@,
    {
        if bytes.len() < 2 {
            None
        } else {
            Some(SocketAddrAny { order, bytes })
        }
    }

    /// The byte order of the host-order fields.
    #[verifier::when_used_as_spec(spec_byte_order)]
    pub fn byte_order(&self) -> (r: ByteOrder)
        ensures
            r == self.byte_order(),
    {
        self.order
    }

    /// The bytes of the `sockaddr` structure.
    pub fn as_bytes(&self) -> (r: &[u8])
        ensures
            r@ == self.spec_bytes(),
    {
        self.bytes.as_slice()
    }

    /// The length of the `sockaddr` structure in bytes.
    pub fn addr_len(&self) -> (r: usize)
        ensures
            r == self.spec_bytes().len(),
    {
        self.bytes.len()
    }

    /// The address family.
    pub fn address_family(&self) -> (r: u16)
        ensures
            self.spec_bytes().len() >= 2,
            r == family_of(self.byte_order(), self.spec_bytes()),
    {
        proof {
            use_type_invariant(self);
        }
        u16_from_bytes(self.order, self.bytes[0], self.bytes[1])
    }
}

impl Clone for SocketAddrAny {
    fn clone(&self) -> (r: Self)
        ensures
            r.byte_order() == self.byte_order(),
            r.spec_bytes() == self.spec_bytes(),
    {
        proof {
            use_type_invariant(self);
        }
        SocketAddrAny { order: self.order, bytes: self.bytes.clone() }
    }
}

/// The six bytes of `b` from index `i` on, as a device address.
fn bdaddr_at(b: &[u8], i: usize) -> (r: BdAddr)
    requires
        i + 6 <= b@.len(),
    ensures
        r@ == b@.subrange(i as int, i + 6),
{
    let r = BdAddr([b[i], b[i + 1], b[i + 2], b[i + 3], b[i + 4], b[i + 5]]);
    assert(r.0@ =~= b@.subrange(i as int, i + 6));
    r
}

/// A Bluetooth device address: six bytes in the order the kernel stores them.
#[derive(Debug, Clone, Copy, PartialEq, Eq, PartialOrd, Ord, Hash)]
pub struct BdAddr([u8; 6]);

impl View for BdAddr {
    type V = Seq<u8>;

    closed spec fn view(&self) -> Seq<u8> {
        self.0@
    }
}

impl BdAddr {
    /// The number of bytes in a Bluetooth device address.
    pub const LEN: usize = 6;

    /// Construct a Bluetooth device address from its kernel-order bytes.
    pub fn new(bytes: [u8; 6]) -> (r: Self)
        ensures
            r@ == bytes@,
    {
        BdAddr(bytes)
    }

    /// Return the kernel-order bytes.
    pub fn as_bytes(&self) -> (r: &[u8; 6])
        ensures
            r@ == self@,
    {
        &self.0
    }

    /// Return the kernel-order bytes.
    pub fn into_bytes(self) -> (r: [u8; 6])
        ensures
            r@ == self@,
    {
        self.0
    }

    /// The `bdaddr_t` the kernel stores for this address: the same six bytes.
    fn encode(self) -> (r: [u8; 6])
        ensures
            r@ == self@,
    {
        self.0
    }

    /// Converting bytes into an address keeps the bytes, and converting an
    /// address into bytes gives its bytes.
    pub proof fn lemma_from(bytes: [u8; 6], addr: BdAddr)
        ensures
            <BdAddr as vstd::std_specs::convert::FromSpec<[u8; 6]>>::from_spec(bytes)@ == bytes@,
            <[u8; 6] as vstd::std_specs::convert::FromSpec<BdAddr>>::from_spec(addr)@ == addr@,
    {
    }

    /// An address always has six bytes.
    pub proof fn lemma_len(self)
        ensures
            self@.len() == 6,
    {
    }

    /// Two addresses with the same bytes are the same address.
    pub proof fn lemma_view_eq(a: BdAddr, b: BdAddr)
        requires
            a@ == b@,
        ensures
            a == b,
    {
        assert(a.0 =~= b.0);
    }
}

impl From<[u8; 6]> for BdAddr {
    fn from(bytes: [u8; 6]) -> (r: Self) {
        BdAddr(bytes)
    }
}

impl vstd::std_specs::convert::FromSpecImpl<[u8; 6]> for BdAddr {
    open spec fn obeys_from_spec() -> bool {
        true
    }

    closed spec fn from_spec(bytes: [u8; 6]) -> Self {
        BdAddr(bytes)
    }
}

impl From<BdAddr> for [u8; 6] {
    fn from(addr: BdAddr) -> (r: Self) {
        addr.into_bytes()
    }
}

impl vstd::std_specs::convert::FromSpecImpl<BdAddr> for [u8; 6] {
    open spec fn obeys_from_spec() -> bool {
        true
    }

    closed spec fn from_spec(addr: BdAddr) -> Self {
        addr.0
    }
}

/// Bluetooth device address type.
#[derive(Debug, Clone, Copy, PartialEq, Eq, PartialOrd, Ord, Hash)]
pub struct BdAddrType(u8);

impl View for BdAddrType {
    type V = u8;

    closed spec fn view(&self) -> u8 {
        self.0
    }
}

impl BdAddrType {
    /// `BDADDR_BREDR`.
    pub fn bredr() -> (r: Self)
        ensures
            r@ == BDADDR_BREDR,
    {
        BdAddrType(BDADDR_BREDR)
    }

    /// `BDADDR_LE_PUBLIC`.
    pub fn le_public() -> (r: Self)
        ensures
            r@ == BDADDR_LE_PUBLIC,
    {
        BdAddrType(BDADDR_LE_PUBLIC)
    }

    /// `BDADDR_LE_RANDOM`.
    pub fn le_random() -> (r: Self)
        ensures
            r@ == BDADDR_LE_RANDOM,
    {
        BdAddrType(BDADDR_LE_RANDOM)
    }

    /// Construct a `BdAddrType` from a raw integer.
    pub fn from_raw(raw: u8) -> (r: Self)
        ensures
            r@ == raw,
    {
        BdAddrType(raw)
    }

    /// Return the raw integer.
    pub fn as_raw(self) -> (r: u8)
        ensures
            r == self@,
    {
        self.0
    }

    /// Two address types with the same raw integer are the same.
    pub proof fn lemma_view_eq(a: BdAddrType, b: BdAddrType)
        requires
            a@ == b@,
        ensures
            a == b,
    {
    }
}

/// HCI device id.
#[derive(Debug, Clone, Copy, PartialEq, Eq, PartialOrd, Ord, Hash)]
pub struct HciDevice(u16);

impl View for HciDevice {
    type V = u16;

    closed spec fn view(&self) -> u16 {
        self.0
    }
}

impl HciDevice {
    /// `HCI_DEV_NONE`.
    pub fn none() -> (r: Self)
        ensures
            r@ == HCI_DEV_NONE,
    {
        HciDevice(HCI_DEV_NONE)
    }

    /// Construct an HCI device id from a raw integer.
    pub fn from_raw(raw: u16) -> (r: Self)
        ensures
            r@ == raw,
    {
        HciDevice(raw)
    }

    /// Return the raw integer.
    pub fn as_raw(self) -> (r: u16)
        ensures
            r == self@,
    {
        self.0
    }

    /// Two device ids with the same raw integer are the same.
    pub proof fn lemma_view_eq(a: HciDevice, b: HciDevice)
        requires
            a@ == b@,
        ensures
            a == b,
    {
    }
}

/// HCI socket channel.
#[derive(Debug, Clone, Copy, PartialEq, Eq, PartialOrd, Ord, Hash)]
pub struct HciChannel(u16);

impl View for HciChannel {
    type V = u16;

    closed spec fn view(&self) -> u16 {
        self.0
    }
}

impl HciChannel {
    /// `HCI_CHANNEL_RAW`.
    pub fn raw() -> (r: Self)
        ensures
            r@ == HCI_CHANNEL_RAW,
    {
        HciChannel(HCI_CHANNEL_RAW)
    }

    /// `HCI_CHANNEL_USER`.
    pub fn user() -> (r: Self)
        ensures
            r@ == HCI_CHANNEL_USER,
    {
        HciChannel(HCI_CHANNEL_USER)
    }

    /// `HCI_CHANNEL_MONITOR`.
    pub fn monitor() -> (r: Self)
        ensures
            r@ == HCI_CHANNEL_MONITOR,
    {
        HciChannel(HCI_CHANNEL_MONITOR)
    }

    /// `HCI_CHANNEL_CONTROL`.
    pub fn control() -> (r: Self)
        ensures
            r@ == HCI_CHANNEL_CONTROL,
    {
        HciChannel(HCI_CHANNEL_CONTROL)
    }

    /// `HCI_CHANNEL_LOGGING`.
    pub fn logging() -> (r: Self)
        ensures
            r@ == HCI_CHANNEL_LOGGING,
    {
        HciChannel(HCI_CHANNEL_LOGGING)
    }

    /// Construct an HCI channel from a raw integer.
    pub fn from_raw(raw: u16) -> (r: Self)
        ensures
            r@ == raw,
    {
        HciChannel(raw)
    }

    /// Return the raw integer.
    pub fn as_raw(self) -> (r: u16)
        ensures
            r == self@,
    {
        self.0
    }

    /// Two channels with the same raw integer are the same.
    pub proof fn lemma_view_eq(a: HciChannel, b: HciChannel)
        requires
            a@ == b@,
        ensures
            a == b,
    {
    }
}

/// A Bluetooth HCI socket address.
///
/// Not ABI compatible with `struct sockaddr_hci`.
#[derive(Debug, Clone, Copy, PartialEq, Eq, PartialOrd, Ord, Hash)]
pub struct SocketAddrHci {
    device: HciDevice,
    channel: HciChannel,
}

impl SocketAddrHci {
    /// Construct an HCI socket address.
    pub fn new(device: HciDevice, channel: HciChannel) -> (r: Self)
        ensures
            r.device() == device,
            r.channel() == channel,
    {
        SocketAddrHci { device, channel }
    }

    /// The device id of this address, as contracts speak of it.
    pub closed spec fn spec_device(&self) -> HciDevice {
        self.device
    }

    /// Return the HCI device id.
    #[verifier::when_used_as_spec(spec_device)]
    pub fn device(&self) -> (r: HciDevice)
        ensures
            r == self.device(),
    {
        self.device
    }

    /// Set the HCI device id.
    pub fn set_device(&mut self, device: HciDevice)
        ensures
            final(self).device() == device,
            final(self).channel() == old(self).channel(),
    {
        self.device = device;
    }

    /// The channel of this address, as contracts speak of it.
    pub closed spec fn spec_channel(&self) -> HciChannel {
        self.channel
    }

    /// Return the HCI channel.
    #[verifier::when_used_as_spec(spec_channel)]
    pub fn channel(&self) -> (r: HciChannel)
        ensures
            r == self.channel(),
    {
        self.channel
    }

    /// Set the HCI channel.
    pub fn set_channel(&mut self, channel: HciChannel)
        ensures
            final(self).channel() == channel,
            final(self).device() == old(self).device(),
    {
        self.channel = channel;
    }

    /// Two addresses that agree in every field are the same address.
    pub proof fn lemma_fields_eq(a: SocketAddrHci, b: SocketAddrHci)
        requires
            a.device() == b.device(),
            a.channel() == b.channel(),
        ensures
            a == b,
    {
    }
}

/// A Bluetooth L2CAP socket address.
///
/// Not ABI compatible with `struct sockaddr_l2`.
#[derive(Debug, Clone, Copy, PartialEq, Eq, PartialOrd, Ord, Hash)]
pub struct SocketAddrL2cap {
    addr: BdAddr,
    addr_type: BdAddrType,
    psm: u16,
    cid: u16,
}

impl SocketAddrL2cap {
    /// Construct an L2CAP socket address.
    pub fn new(addr: BdAddr, addr_type: BdAddrType, psm: u16, cid: u16) -> (r: Self)
        ensures
            r.addr() == addr,
            r.addr_type() == addr_type,
            r.psm() == psm,
            r.cid() == cid,
    {
        SocketAddrL2cap { addr, addr_type, psm, cid }
    }

    /// The device address of this address, as contracts speak of it.
    pub closed spec fn spec_addr(&self) -> BdAddr {
        self.addr
    }

    /// Return the Bluetooth device address.
    #[verifier::when_used_as_spec(spec_addr)]
    pub fn addr(&self) -> (r: BdAddr)
        ensures
            r == self.addr(),
    {
        self.addr
    }

    /// Set the Bluetooth device address.
    pub fn set_addr(&mut self, addr: BdAddr)
        ensures
            final(self).addr() == addr,
            final(self).addr_type() == old(self).addr_type(),
            final(self).psm() == old(self).psm(),
            final(self).cid() == old(self).cid(),
    {
        self.addr = addr;
    }

    /// The device address type of this address, as contracts speak of it.
    pub closed spec fn spec_addr_type(&self) -> BdAddrType {
        self.addr_type
    }

    /// Return the Bluetooth device address type.
    #[verifier::when_used_as_spec(spec_addr_type)]
    pub fn addr_type(&self) -> (r: BdAddrType)
        ensures
            r == self.addr_type(),
    {
        self.addr_type
    }

    /// Set the Bluetooth device address type.
    pub fn set_addr_type(&mut self, addr_type: BdAddrType)
        ensures
            final(self).addr_type() == addr_type,
            final(self).addr() == old(self).addr(),
            final(self).psm() == old(self).psm(),
            final(self).cid() == old(self).cid(),
    {
        self.addr_type = addr_type;
    }

    /// The PSM of this address, as contracts speak of it.
    pub closed spec fn spec_psm(&self) -> u16 {
        self.psm
    }

    /// Return the L2CAP PSM in host byte order.
    #[verifier::when_used_as_spec(spec_psm)]
    pub fn psm(&self) -> (r: u16)
        ensures
            r == self.psm(),
    {
        self.psm
    }

    /// Set the L2CAP PSM in host byte order.
    pub fn set_psm(&mut self, psm: u16)
        ensures
            final(self).psm() == psm,
            final(self).addr() == old(self).addr(),
            final(self).addr_type() == old(self).addr_type(),
            final(self).cid() == old(self).cid(),
    {
        self.psm = psm;
    }

    /// The CID of this address, as contracts speak of it.
    pub closed spec fn spec_cid(&self) -> u16 {
        self.cid
    }

    /// Return the L2CAP CID in host byte order.
    #[verifier::when_used_as_spec(spec_cid)]
    pub fn cid(&self) -> (r: u16)
        ensures
            r == self.cid(),
    {
        self.cid
    }

    /// Set the L2CAP CID in host byte order.
    pub fn set_cid(&mut self, cid: u16)
        ensures
            final(self).cid() == cid,
            final(self).addr() == old(self).addr(),
            final(self).addr_type() == old(self).addr_type(),
            final(self).psm() == old(self).psm(),
    {
        self.cid = cid;
    }

    /// Two addresses that agree in every field are the same address.
    pub proof fn lemma_fields_eq(a: SocketAddrL2cap, b: SocketAddrL2cap)
        requires
            a.addr() == b.addr(),
            a.addr_type() == b.addr_type(),
            a.psm() == b.psm(),
            a.cid() == b.cid(),
        ensures
            a == b,
    {
    }
}

/// A Bluetooth SCO socket address.
///
/// Not ABI compatible with `struct sockaddr_sco`.
#[derive(Debug, Clone, Copy, PartialEq, Eq, PartialOrd, Ord, Hash)]
pub struct SocketAddrSco {
    addr: BdAddr,
}

impl SocketAddrSco {
    /// Construct a SCO socket address.
    pub fn new(addr: BdAddr) -> (r: Self)
        ensures
            r.addr() == addr,
    {
        SocketAddrSco { addr }
    }

    /// The device address of this address, as contracts speak of it.
    pub closed spec fn spec_addr(&self) -> BdAddr {
        self.addr
    }

    /// Return the Bluetooth device address.
    #[verifier::when_used_as_spec(spec_addr)]
    pub fn addr(&self) -> (r: BdAddr)
        ensures
            r == self.addr(),
    {
        self.addr
    }

    /// Set the Bluetooth device address.
    pub fn set_addr(&mut self, addr: BdAddr)
        ensures
            final(self).addr() == addr,
    {
        self.addr = addr;
    }

    /// Two addresses that agree in every field are the same address.
    pub proof fn lemma_fields_eq(a: SocketAddrSco, b: SocketAddrSco)
        requires
            a.addr() == b.addr(),
        ensures
            a == b,
    {
    }
}

/// A Bluetooth RFCOMM socket address.
///
/// Not ABI compatible with `struct sockaddr_rc`.
#[derive(Debug, Clone, Copy, PartialEq, Eq, PartialOrd, Ord, Hash)]
pub struct SocketAddrRfcomm {
    addr: BdAddr,
    channel: u8,
}

impl SocketAddrRfcomm {
    /// Construct an RFCOMM socket address.
    pub fn new(addr: BdAddr, channel: u8) -> (r: Self)
        ensures
            r.addr() == addr,
            r.channel() == channel,
    {
        SocketAddrRfcomm { addr, channel }
    }

    /// The device address of this address, as contracts speak of it.
    pub closed spec fn spec_addr(&self) -> BdAddr {
        self.addr
    }

    /// Return the Bluetooth device address.
    #[verifier::when_used_as_spec(spec_addr)]
    pub fn addr(&self) -> (r: BdAddr)
        ensures
            r == self.addr(),
    {
        self.addr
    }

    /// Set the Bluetooth device address.
    pub fn set_addr(&mut self, addr: BdAddr)
        ensures
            final(self).addr() == addr,
            final(self).channel() == old(self).channel(),
    {
        self.addr = addr;
    }

    /// The channel of this address, as contracts speak of it.
    pub closed spec fn spec_channel(&self) -> u8 {
        self.channel
    }

    /// Return the RFCOMM channel.
    #[verifier::when_used_as_spec(spec_channel)]
    pub fn channel(&self) -> (r: u8)
        ensures
            r == self.channel(),
    {
        self.channel
    }

    /// Set the RFCOMM channel.
    pub fn set_channel(&mut self, channel: u8)
        ensures
            final(self).channel() == channel,
            final(self).addr() == old(self).addr(),
    {
        self.channel = channel;
    }

    /// Two addresses that agree in every field are the same address.
    pub proof fn lemma_fields_eq(a: SocketAddrRfcomm, b: SocketAddrRfcomm)
        requires
            a.addr() == b.addr(),
            a.channel() == b.channel(),
        ensures
            a == b,
    {
    }
}


/// The `struct sockaddr_hci` the kernel reads for `a`: the family, the
/// device id and the channel, each a `u16` in host order `o`.
pub open spec fn hci_image(a: SocketAddrHci, o: ByteOrder) -> Seq<u8> {
    u16_bytes(o, AF_BLUETOOTH) + u16_bytes(o, a.device()@) + u16_bytes(o, a.channel()@)
}

/// The `struct sockaddr_l2` the kernel reads for `a`: the family in host
/// order `o`, the PSM little-endian, the device address, the CID
/// little-endian, the address type and one zero byte of padding.
pub open spec fn l2cap_image(a: SocketAddrL2cap, o: ByteOrder) -> Seq<u8> {
    u16_bytes(o, AF_BLUETOOTH) + u16_bytes(ByteOrder::Little, a.psm()) + a.addr()@ + u16_bytes(
        ByteOrder::Little,
        a.cid(),
    ) + seq![a.addr_type()@, 0u8]
}

/// The `struct sockaddr_sco` the kernel reads for `a`: the family in host
/// order `o` and the device address.
pub open spec fn sco_image(a: SocketAddrSco, o: ByteOrder) -> Seq<u8> {
    u16_bytes(o, AF_BLUETOOTH) + a.addr()@
}

/// The `struct sockaddr_rc` the kernel reads for `a`: the family in host
/// order `o`, the device address, the channel and one zero byte of padding.
pub open spec fn rfcomm_image(a: SocketAddrRfcomm, o: ByteOrder) -> Seq<u8> {
    u16_bytes(o, AF_BLUETOOTH) + a.addr()@ + seq![a.channel(), 0u8]
}

/// What reading the `sockaddr` bytes `b`, in host order `o`, as an HCI
/// address gives.
pub closed spec fn hci_decode(o: ByteOrder, b: Seq<u8>) -> Result<SocketAddrHci, Errno> {
    if b.len() < 2 || family_of(o, b) != AF_BLUETOOTH {
        Err(Errno::AFNOSUPPORT)
    } else if b.len() < SOCKADDR_HCI_SIZE {
        Err(Errno::INVAL)
    } else {
        Ok(
            SocketAddrHci {
                device: HciDevice(u16_value(o, b[2], b[3])),
                channel: HciChannel(u16_value(o, b[4], b[5])),
            },
        )
    }
}

/// What reading the `sockaddr` bytes `b`, in host order `o`, as an L2CAP
/// address gives.
pub closed spec fn l2cap_decode(o: ByteOrder, b: Seq<u8>) -> Result<SocketAddrL2cap, Errno> {
    if b.len() < 2 || family_of(o, b) != AF_BLUETOOTH {
        Err(Errno::AFNOSUPPORT)
    } else if b.len() < SOCKADDR_L2_SIZE {
        Err(Errno::INVAL)
    } else {
        Ok(
            SocketAddrL2cap {
                addr: BdAddr(spec_bytes6(b.subrange(4, 10))),
                addr_type: BdAddrType(b[12]),
                psm: u16_value(ByteOrder::Little, b[2], b[3]),
                cid: u16_value(ByteOrder::Little, b[10], b[11]),
            },
        )
    }
}

/// What reading the `sockaddr` bytes `b`, in host order `o`, as a SCO
/// address gives.
pub closed spec fn sco_decode(o: ByteOrder, b: Seq<u8>) -> Result<SocketAddrSco, Errno> {
    if b.len() < 2 || family_of(o, b) != AF_BLUETOOTH {
        Err(Errno::AFNOSUPPORT)
    } else if b.len() < SOCKADDR_SCO_SIZE {
        Err(Errno::INVAL)
    } else {
        Ok(SocketAddrSco { addr: BdAddr(spec_bytes6(b.subrange(2, 8))) })
    }
}

/// What reading the `sockaddr` bytes `b`, in host order `o`, as an RFCOMM
/// address gives.
pub closed spec fn rfcomm_decode(o: ByteOrder, b: Seq<u8>) -> Result<SocketAddrRfcomm, Errno> {
    if b.len() < 2 || family_of(o, b) != AF_BLUETOOTH {
        Err(Errno::AFNOSUPPORT)
    } else if b.len() < SOCKADDR_RC_SIZE {
        Err(Errno::INVAL)
    } else {
        Ok(SocketAddrRfcomm { addr: BdAddr(spec_bytes6(b.subrange(2, 8))), channel: b[8] })
    }
}

/// The array holding the six bytes `s`.
closed spec fn spec_bytes6(s: Seq<u8>) -> [u8; 6] {
    choose|a: [u8; 6]| a@ == s
}

proof fn lemma_bytes6(s: Seq<u8>)
    requires
        s.len() == 6,
    ensures
        spec_bytes6(s)@ == s,
{
    let a = [s[0], s[1], s[2], s[3], s[4], s[5]];
    assert(a@ =~= s);
}

impl SocketAddrHci {
    /// The bytes of the `struct sockaddr_hci` for this address, with the
    /// host-order fields in order `order`.
    pub fn to_sockaddr_bytes(&self, order: ByteOrder) -> (r: Vec<u8>)
        ensures
            r@ == hci_image(*self, order),
    {
        let f = u16_to_bytes(order, AF_BLUETOOTH);
        let d = u16_to_bytes(order, self.device.as_raw());
        let c = u16_to_bytes(order, self.channel.as_raw());
        let img = [f[0], f[1], d[0], d[1], c[0], c[1]];
        assert(img@ =~= hci_image(*self, order));
        slice_to_vec(img.as_slice())
    }

    /// This address as a socket address of any family, laid out in the
    /// byte order of this machine.
    pub fn as_any(&self) -> (r: SocketAddrAny)
        ensures
            r.spec_bytes() == hci_image(*self, r.byte_order()),
            r.byte_order() == host_order(),
            r.spec_bytes() == hci_image(*self, host_order()),
    {
        let order = ByteOrder::host();
        SocketAddrAny { order, bytes: self.to_sockaddr_bytes(order) }
    }

    /// Read an HCI address from a socket address of any family.
    pub fn read_from(addr: &SocketAddrAny) -> (r: Result<SocketAddrHci, Errno>)
        ensures
            r == hci_decode(addr.byte_order(), addr.spec_bytes()),
            family_of(addr.byte_order(), addr.spec_bytes()) != AF_BLUETOOTH ==> r
                == Err::<SocketAddrHci, Errno>(Errno::AFNOSUPPORT),
            family_of(addr.byte_order(), addr.spec_bytes()) == AF_BLUETOOTH && addr.spec_bytes().len()
                < SOCKADDR_HCI_SIZE ==> r == Err::<SocketAddrHci, Errno>(Errno::INVAL),
            family_of(addr.byte_order(), addr.spec_bytes()) == AF_BLUETOOTH && addr.spec_bytes().len()
                >= SOCKADDR_HCI_SIZE ==> (r matches Ok(a) && a.device()@ == u16_value(
                addr.byte_order(),
                addr.spec_bytes()[2],
                addr.spec_bytes()[3],
            ) && a.channel()@ == u16_value(
                addr.byte_order(),
                addr.spec_bytes()[4],
                addr.spec_bytes()[5],
            )),
    {
        let order = addr.byte_order();
        if addr.address_family() != AF_BLUETOOTH {
            return Err(Errno::AFNOSUPPORT);
        }
        let b = addr.as_bytes();
        if b.len() < SOCKADDR_HCI_SIZE {
            return Err(Errno::INVAL);
        }
        let device = HciDevice::from_raw(u16_from_bytes(order, b[2], b[3]));
        let channel = HciChannel::from_raw(u16_from_bytes(order, b[4], b[5]));
        Ok(SocketAddrHci::new(device, channel))
    }
}

impl SocketAddrL2cap {
    /// The bytes of the `struct sockaddr_l2` for this address, with the
    /// host-order fields in order `order`.
    pub fn to_sockaddr_bytes(&self, order: ByteOrder) -> (r: Vec<u8>)
        ensures
            r@ == l2cap_image(*self, order),
    {
        let f = u16_to_bytes(order, AF_BLUETOOTH);
        let p = u16_to_bytes(ByteOrder::Little, self.psm);
        let a = self.addr.encode();
        let c = u16_to_bytes(ByteOrder::Little, self.cid);
        let img = [
            f[0],
            f[1],
            p[0],
            p[1],
            a[0],
            a[1],
            a[2],
            a[3],
            a[4],
            a[5],
            c[0],
            c[1],
            self.addr_type.as_raw(),
            0u8,
        ];
        assert(img@ =~= l2cap_image(*self, order));
        slice_to_vec(img.as_slice())
    }

    /// This address as a socket address of any family, laid out in the
    /// byte order of this machine.
    pub fn as_any(&self) -> (r: SocketAddrAny)
        ensures
            r.spec_bytes() == l2cap_image(*self, r.byte_order()),
            r.byte_order() == host_order(),
            r.spec_bytes() == l2cap_image(*self, host_order()),
    {
        let order = ByteOrder::host();
        SocketAddrAny { order, bytes: self.to_sockaddr_bytes(order) }
    }

    /// Read an L2CAP address from a socket address of any family.
    pub fn read_from(addr: &SocketAddrAny) -> (r: Result<SocketAddrL2cap, Errno>)
        ensures
            r == l2cap_decode(addr.byte_order(), addr.spec_bytes()),
            family_of(addr.byte_order(), addr.spec_bytes()) != AF_BLUETOOTH ==> r
                == Err::<SocketAddrL2cap, Errno>(Errno::AFNOSUPPORT),
            family_of(addr.byte_order(), addr.spec_bytes()) == AF_BLUETOOTH && addr.spec_bytes().len()
                < SOCKADDR_L2_SIZE ==> r == Err::<SocketAddrL2cap, Errno>(Errno::INVAL),
            family_of(addr.byte_order(), addr.spec_bytes()) == AF_BLUETOOTH && addr.spec_bytes().len()
                >= SOCKADDR_L2_SIZE ==> (r matches Ok(a) && a.psm() == u16_value(
                ByteOrder::Little,
                addr.spec_bytes()[2],
                addr.spec_bytes()[3],
            ) && a.addr()@ == addr.spec_bytes().subrange(4, 10) && a.cid() == u16_value(
                ByteOrder::Little,
                addr.spec_bytes()[10],
                addr.spec_bytes()[11],
            ) && a.addr_type()@ == addr.spec_bytes()[12]),
    {
        let order = addr.byte_order();
        if addr.address_family() != AF_BLUETOOTH {
            return Err(Errno::AFNOSUPPORT);
        }
        let b = addr.as_bytes();
        if b.len() < SOCKADDR_L2_SIZE {
            return Err(Errno::INVAL);
        }
        let psm = u16_from_bytes(ByteOrder::Little, b[2], b[3]);
        let bdaddr = bdaddr_at(b, 4);
        let cid = u16_from_bytes(ByteOrder::Little, b[10], b[11]);
        let addr_type = BdAddrType::from_raw(b[12]);
        proof {
            lemma_bytes6(b@.subrange(4, 10));
            BdAddr::lemma_view_eq(bdaddr, BdAddr(spec_bytes6(b@.subrange(4, 10))));
        }
        Ok(SocketAddrL2cap::new(bdaddr, addr_type, psm, cid))
    }
}

impl SocketAddrSco {
    /// The bytes of the `struct sockaddr_sco` for this address, with the
    /// host-order fields in order `order`.
    pub fn to_sockaddr_bytes(&self, order: ByteOrder) -> (r: Vec<u8>)
        ensures
            r@ == sco_image(*self, order),
    {
        let f = u16_to_bytes(order, AF_BLUETOOTH);
        let a = self.addr.encode();
        let img = [f[0], f[1], a[0], a[1], a[2], a[3], a[4], a[5]];
        assert(img@ =~= sco_image(*self, order));
        slice_to_vec(img.as_slice())
    }

    /// This address as a socket address of any family, laid out in the
    /// byte order of this machine.
    pub fn as_any(&self) -> (r: SocketAddrAny)
        ensures
            r.spec_bytes() == sco_image(*self, r.byte_order()),
            r.byte_order() == host_order(),
            r.spec_bytes() == sco_image(*self, host_order()),
    {
        let order = ByteOrder::host();
        SocketAddrAny { order, bytes: self.to_sockaddr_bytes(order) }
    }

    /// Read a SCO address from a socket address of any family.
    pub fn read_from(addr: &SocketAddrAny) -> (r: Result<SocketAddrSco, Errno>)
        ensures
            r == sco_decode(addr.byte_order(), addr.spec_bytes()),
            family_of(addr.byte_order(), addr.spec_bytes()) != AF_BLUETOOTH ==> r
                == Err::<SocketAddrSco, Errno>(Errno::AFNOSUPPORT),
            family_of(addr.byte_order(), addr.spec_bytes()) == AF_BLUETOOTH && addr.spec_bytes().len()
                < SOCKADDR_SCO_SIZE ==> r == Err::<SocketAddrSco, Errno>(Errno::INVAL),
            family_of(addr.byte_order(), addr.spec_bytes()) == AF_BLUETOOTH && addr.spec_bytes().len()
                >= SOCKADDR_SCO_SIZE ==> (r matches Ok(a) && a.addr()@ == addr.spec_bytes().subrange(2, 8)),
    {
        if addr.address_family() != AF_BLUETOOTH {
            return Err(Errno::AFNOSUPPORT);
        }
        let b = addr.as_bytes();
        if b.len() < SOCKADDR_SCO_SIZE {
            return Err(Errno::INVAL);
        }
        let bdaddr = bdaddr_at(b, 2);
        proof {
            lemma_bytes6(b@.subrange(2, 8));
            BdAddr::lemma_view_eq(bdaddr, BdAddr(spec_bytes6(b@.subrange(2, 8))));
        }
        Ok(SocketAddrSco::new(bdaddr))
    }
}

impl SocketAddrRfcomm {
    /// The bytes of the `struct sockaddr_rc` for this address, with the
    /// host-order fields in order `order`.
    pub fn to_sockaddr_bytes(&self, order: ByteOrder) -> (r: Vec<u8>)
        ensures
            r@ == rfcomm_image(*self, order),
    {
        let f = u16_to_bytes(order, AF_BLUETOOTH);
        let a = self.addr.encode();
        let img = [f[0], f[1], a[0], a[1], a[2], a[3], a[4], a[5], self.channel, 0u8];
        assert(img@ =~= rfcomm_image(*self, order));
        slice_to_vec(img.as_slice())
    }

    /// This address as a socket address of any family, laid out in the
    /// byte order of this machine.
    pub fn as_any(&self) -> (r: SocketAddrAny)
        ensures
            r.spec_bytes() == rfcomm_image(*self, r.byte_order()),
            r.byte_order() == host_order(),
            r.spec_bytes() == rfcomm_image(*self, host_order()),
    {
        let order = ByteOrder::host();
        SocketAddrAny { order, bytes: self.to_sockaddr_bytes(order) }
    }

    /// Read an RFCOMM address from a socket address of any family.
    pub fn read_from(addr: &SocketAddrAny) -> (r: Result<SocketAddrRfcomm, Errno>)
        ensures
            r == rfcomm_decode(addr.byte_order(), addr.spec_bytes()),
            family_of(addr.byte_order(), addr.spec_bytes()) != AF_BLUETOOTH ==> r
                == Err::<SocketAddrRfcomm, Errno>(Errno::AFNOSUPPORT),
            family_of(addr.byte_order(), addr.spec_bytes()) == AF_BLUETOOTH && addr.spec_bytes().len()
                < SOCKADDR_RC_SIZE ==> r == Err::<SocketAddrRfcomm, Errno>(Errno::INVAL),
            family_of(addr.byte_order(), addr.spec_bytes()) == AF_BLUETOOTH && addr.spec_bytes().len()
                >= SOCKADDR_RC_SIZE ==> (r matches Ok(a) && a.addr()@ == addr.spec_bytes().subrange(2, 8)
                && a.channel() == addr.spec_bytes()[8]),
    {
        if addr.address_family() != AF_BLUETOOTH {
            return Err(Errno::AFNOSUPPORT);
        }
        let b = addr.as_bytes();
        if b.len() < SOCKADDR_RC_SIZE {
            return Err(Errno::INVAL);
        }
        let bdaddr = bdaddr_at(b, 2);
        proof {
            lemma_bytes6(b@.subrange(2, 8));
            BdAddr::lemma_view_eq(bdaddr, BdAddr(spec_bytes6(b@.subrange(2, 8))));
        }
        Ok(SocketAddrRfcomm::new(bdaddr, b[8]))
    }
}

impl TryFrom<SocketAddrAny> for SocketAddrHci {
    type Error = Errno;

    fn try_from(addr: SocketAddrAny) -> (r: Result<Self, Errno>) {
        SocketAddrHci::read_from(&addr)
    }
}

impl vstd::std_specs::convert::TryFromSpecImpl<SocketAddrAny> for SocketAddrHci {
    open spec fn obeys_try_from_spec() -> bool {
        true
    }

    open spec fn try_from_spec(addr: SocketAddrAny) -> Result<Self, Errno> {
        hci_decode(addr.byte_order(), addr.spec_bytes())
    }
}

impl TryFrom<SocketAddrAny> for SocketAddrL2cap {
    type Error = Errno;

    fn try_from(addr: SocketAddrAny) -> (r: Result<Self, Errno>) {
        SocketAddrL2cap::read_from(&addr)
    }
}

impl vstd::std_specs::convert::TryFromSpecImpl<SocketAddrAny> for SocketAddrL2cap {
    open spec fn obeys_try_from_spec() -> bool {
        true
    }

    open spec fn try_from_spec(addr: SocketAddrAny) -> Result<Self, Errno> {
        l2cap_decode(addr.byte_order(), addr.spec_bytes())
    }
}

impl TryFrom<SocketAddrAny> for SocketAddrSco {
    type Error = Errno;

    fn try_from(addr: SocketAddrAny) -> (r: Result<Self, Errno>) {
        SocketAddrSco::read_from(&addr)
    }
}

impl vstd::std_specs::convert::TryFromSpecImpl<SocketAddrAny> for SocketAddrSco {
    open spec fn obeys_try_from_spec() -> bool {
        true
    }

    open spec fn try_from_spec(addr: SocketAddrAny) -> Result<Self, Errno> {
        sco_decode(addr.byte_order(), addr.spec_bytes())
    }
}

impl TryFrom<SocketAddrAny> for SocketAddrRfcomm {
    type Error = Errno;

    fn try_from(addr: SocketAddrAny) -> (r: Result<Self, Errno>) {
        SocketAddrRfcomm::read_from(&addr)
    }
}

impl vstd::std_specs::convert::TryFromSpecImpl<SocketAddrAny> for SocketAddrRfcomm {
    open spec fn obeys_try_from_spec() -> bool {
        true
    }

    open spec fn try_from_spec(addr: SocketAddrAny) -> Result<Self, Errno> {
        rfcomm_decode(addr.byte_order(), addr.spec_bytes())
    }
}

/// Every HCI socket address is laid out as `struct sockaddr_hci`: the image
/// is that long and carries the Bluetooth family; and reading the image back,
/// in the byte order it was written in, gives the same address.
pub proof fn lemma_hci_roundtrip(a: SocketAddrHci, o: ByteOrder)
    ensures
        hci_image(a, o).len() == SOCKADDR_HCI_SIZE,
        family_of(o, hci_image(a, o)) == AF_BLUETOOTH,
        hci_decode(o, hci_image(a, o)) == Ok::<SocketAddrHci, Errno>(a),
{
    lemma_u16_roundtrip(o, AF_BLUETOOTH);
    lemma_u16_roundtrip(o, a.device@);
    lemma_u16_roundtrip(o, a.channel@);
}

/// Every L2CAP socket address is laid out as `struct sockaddr_l2`: the image
/// is that long, carries the Bluetooth family and ends in a zero padding
/// byte; and reading the image back, in the byte order it was written in,
/// gives the same address.
pub proof fn lemma_l2cap_roundtrip(a: SocketAddrL2cap, o: ByteOrder)
    ensures
        l2cap_image(a, o).len() == SOCKADDR_L2_SIZE,
        family_of(o, l2cap_image(a, o)) == AF_BLUETOOTH,
        l2cap_image(a, o)[SOCKADDR_L2_SIZE - 1] == 0,
        l2cap_decode(o, l2cap_image(a, o)) == Ok::<SocketAddrL2cap, Errno>(a),
{
    let img = l2cap_image(a, o);
    lemma_u16_roundtrip(o, AF_BLUETOOTH);
    lemma_u16_roundtrip(ByteOrder::Little, a.psm);
    lemma_u16_roundtrip(ByteOrder::Little, a.cid);
    assert(img.subrange(4, 10) =~= a.addr@);
    lemma_bytes6(img.subrange(4, 10));
    BdAddr::lemma_view_eq(a.addr, BdAddr(spec_bytes6(img.subrange(4, 10))));
}

/// Every SCO socket address is laid out as `struct sockaddr_sco`: the image
/// is that long and carries the Bluetooth family; and reading the image back,
/// in the byte order it was written in, gives the same address.
pub proof fn lemma_sco_roundtrip(a: SocketAddrSco, o: ByteOrder)
    ensures
        sco_image(a, o).len() == SOCKADDR_SCO_SIZE,
        family_of(o, sco_image(a, o)) == AF_BLUETOOTH,
        sco_decode(o, sco_image(a, o)) == Ok::<SocketAddrSco, Errno>(a),
{
    let img = sco_image(a, o);
    lemma_u16_roundtrip(o, AF_BLUETOOTH);
    assert(img.subrange(2, 8) =~= a.addr@);
    lemma_bytes6(img.subrange(2, 8));
    BdAddr::lemma_view_eq(a.addr, BdAddr(spec_bytes6(img.subrange(2, 8))));
}

/// Every RFCOMM socket address is laid out as `struct sockaddr_rc`: the image
/// is that long, carries the Bluetooth family and ends in a zero padding
/// byte; and reading the image back, in the byte order it was written in,
/// gives the same address.
pub proof fn lemma_rfcomm_roundtrip(a: SocketAddrRfcomm, o: ByteOrder)
    ensures
        rfcomm_image(a, o).len() == SOCKADDR_RC_SIZE,
        family_of(o, rfcomm_image(a, o)) == AF_BLUETOOTH,
        rfcomm_image(a, o)[SOCKADDR_RC_SIZE - 1] == 0,
        rfcomm_decode(o, rfcomm_image(a, o)) == Ok::<SocketAddrRfcomm, Errno>(a),
{
    let img = rfcomm_image(a, o);
    lemma_u16_roundtrip(o, AF_BLUETOOTH);
    assert(img.subrange(2, 8) =~= a.addr@);
    lemma_bytes6(img.subrange(2, 8));
    BdAddr::lemma_view_eq(a.addr, BdAddr(spec_bytes6(img.subrange(2, 8))));
}

/// Bluetooth `sockaddr` bytes that read as an HCI address are, up to the size
/// of `struct sockaddr_hci`, exactly the image of that address.
pub proof fn lemma_hci_bytes_roundtrip(b: Seq<u8>, o: ByteOrder)
    requires
        b.len() >= SOCKADDR_HCI_SIZE,
        family_of(o, b) == AF_BLUETOOTH,
    ensures
        hci_decode(o, b) matches Ok(a) && hci_image(a, o) == b.subrange(0, SOCKADDR_HCI_SIZE as int),
{
    lemma_u16_bytes_of_value(o, b[0], b[1]);
    lemma_u16_bytes_of_value(o, b[2], b[3]);
    lemma_u16_bytes_of_value(o, b[4], b[5]);
    let a = hci_decode(o, b)->Ok_0;
    assert(hci_image(a, o) =~= b.subrange(0, SOCKADDR_HCI_SIZE as int));
}

/// Bluetooth `sockaddr` bytes that read as an L2CAP address and have zero
/// padding are, up to the size of `struct sockaddr_l2`, exactly the image of
/// that address.
pub proof fn lemma_l2cap_bytes_roundtrip(b: Seq<u8>, o: ByteOrder)
    requires
        b.len() >= SOCKADDR_L2_SIZE,
        family_of(o, b) == AF_BLUETOOTH,
        b[13] == 0,
    ensures
        l2cap_decode(o, b) matches Ok(a) && l2cap_image(a, o) == b.subrange(0, SOCKADDR_L2_SIZE as int),
{
    lemma_u16_bytes_of_value(o, b[0], b[1]);
    lemma_u16_bytes_of_value(ByteOrder::Little, b[2], b[3]);
    lemma_u16_bytes_of_value(ByteOrder::Little, b[10], b[11]);
    lemma_bytes6(b.subrange(4, 10));
    let a = l2cap_decode(o, b)->Ok_0;
    assert(l2cap_image(a, o) =~= b.subrange(0, SOCKADDR_L2_SIZE as int));
}

/// Bluetooth `sockaddr` bytes that read as a SCO address are, up to the size
/// of `struct sockaddr_sco`, exactly the image of that address.
pub proof fn lemma_sco_bytes_roundtrip(b: Seq<u8>, o: ByteOrder)
    requires
        b.len() >= SOCKADDR_SCO_SIZE,
        family_of(o, b) == AF_BLUETOOTH,
    ensures
        sco_decode(o, b) matches Ok(a) && sco_image(a, o) == b.subrange(0, SOCKADDR_SCO_SIZE as int),
{
    lemma_u16_bytes_of_value(o, b[0], b[1]);
    lemma_bytes6(b.subrange(2, 8));
    let a = sco_decode(o, b)->Ok_0;
    assert(sco_image(a, o) =~= b.subrange(0, SOCKADDR_SCO_SIZE as int));
}

/// Bluetooth `sockaddr` bytes that read as an RFCOMM address and have zero
/// padding are, up to the size of `struct sockaddr_rc`, exactly the image of
/// that address.
pub proof fn lemma_rfcomm_bytes_roundtrip(b: Seq<u8>, o: ByteOrder)
    requires
        b.len() >= SOCKADDR_RC_SIZE,
        family_of(o, b) == AF_BLUETOOTH,
        b[9] == 0,
    ensures
        rfcomm_decode(o, b) matches Ok(a) && rfcomm_image(a, o) == b.subrange(0, SOCKADDR_RC_SIZE as int),
{
    lemma_u16_bytes_of_value(o, b[0], b[1]);
    lemma_bytes6(b.subrange(2, 8));
    let a = rfcomm_decode(o, b)->Ok_0;
    assert(rfcomm_image(a, o) =~= b.subrange(0, SOCKADDR_RC_SIZE as int));
}

/// What `as_any` hands the kernel for an HCI address, on the machine it runs
/// on: the family, read natively, is `AF_BLUETOOTH` (its first two bytes are
/// the native bytes of `AF_BLUETOOTH`), and the device id and channel, read
/// natively, are the address's own.
pub proof fn lemma_hci_native_layout(a: SocketAddrHci)
    ensures
        hci_image(a, host_order()).len() == SOCKADDR_HCI_SIZE,
        hci_image(a, host_order()).subrange(0, 2) == u16_bytes(host_order(), AF_BLUETOOTH),
        family_of(host_order(), hci_image(a, host_order())) == AF_BLUETOOTH,
        u16_value(host_order(), hci_image(a, host_order())[2], hci_image(a, host_order())[3])
            == a.device()@,
        u16_value(host_order(), hci_image(a, host_order())[4], hci_image(a, host_order())[5])
            == a.channel()@,
{
    let o = host_order();
    lemma_u16_roundtrip(o, AF_BLUETOOTH);
    lemma_u16_roundtrip(o, a.device@);
    lemma_u16_roundtrip(o, a.channel@);
    assert(hci_image(a, o).subrange(0, 2) =~= u16_bytes(o, AF_BLUETOOTH));
}

/// What `as_any` hands the kernel for an L2CAP address, on the machine it
/// runs on: the family, read natively, is `AF_BLUETOOTH` (its first two bytes
/// are the native bytes of `AF_BLUETOOTH`); the PSM and CID read back
/// little-endian whatever the machine; the device address, the address type
/// and the zero padding follow.
pub proof fn lemma_l2cap_native_layout(a: SocketAddrL2cap)
    ensures
        l2cap_image(a, host_order()).len() == SOCKADDR_L2_SIZE,
        l2cap_image(a, host_order()).subrange(0, 2) == u16_bytes(host_order(), AF_BLUETOOTH),
        family_of(host_order(), l2cap_image(a, host_order())) == AF_BLUETOOTH,
        u16_value(ByteOrder::Little, l2cap_image(a, host_order())[2], l2cap_image(a, host_order())[3])
            == a.psm(),
        l2cap_image(a, host_order()).subrange(4, 10) == a.addr()@,
        u16_value(ByteOrder::Little, l2cap_image(a, host_order())[10], l2cap_image(a, host_order())[11])
            == a.cid(),
        l2cap_image(a, host_order())[12] == a.addr_type()@,
        l2cap_image(a, host_order())[13] == 0,
{
    let o = host_order();
    lemma_u16_roundtrip(o, AF_BLUETOOTH);
    lemma_u16_roundtrip(ByteOrder::Little, a.psm);
    lemma_u16_roundtrip(ByteOrder::Little, a.cid);
    assert(l2cap_image(a, o).subrange(0, 2) =~= u16_bytes(o, AF_BLUETOOTH));
    assert(l2cap_image(a, o).subrange(4, 10) =~= a.addr@);
}

/// What `as_any` hands the kernel for a SCO address, on the machine it runs
/// on: the family, read natively, is `AF_BLUETOOTH` (its first two bytes are
/// the native bytes of `AF_BLUETOOTH`), followed by the device address.
pub proof fn lemma_sco_native_layout(a: SocketAddrSco)
    ensures
        sco_image(a, host_order()).len() == SOCKADDR_SCO_SIZE,
        sco_image(a, host_order()).subrange(0, 2) == u16_bytes(host_order(), AF_BLUETOOTH),
        family_of(host_order(), sco_image(a, host_order())) == AF_BLUETOOTH,
        sco_image(a, host_order()).subrange(2, 8) == a.addr()@,
{
    let o = host_order();
    lemma_u16_roundtrip(o, AF_BLUETOOTH);
    assert(sco_image(a, o).subrange(0, 2) =~= u16_bytes(o, AF_BLUETOOTH));
    assert(sco_image(a, o).subrange(2, 8) =~= a.addr@);
}

/// What `as_any` hands the kernel for an RFCOMM address, on the machine it
/// runs on: the family, read natively, is `AF_BLUETOOTH` (its first two bytes
/// are the native bytes of `AF_BLUETOOTH`), followed by the device address,
/// the channel and a zero padding byte.
pub proof fn lemma_rfcomm_native_layout(a: SocketAddrRfcomm)
    ensures
        rfcomm_image(a, host_order()).len() == SOCKADDR_RC_SIZE,
        rfcomm_image(a, host_order()).subrange(0, 2) == u16_bytes(host_order(), AF_BLUETOOTH),
        family_of(host_order(), rfcomm_image(a, host_order())) == AF_BLUETOOTH,
        rfcomm_image(a, host_order()).subrange(2, 8) == a.addr()@,
        rfcomm_image(a, host_order())[8] == a.channel(),
        rfcomm_image(a, host_order())[9] == 0,
{
    let o = host_order();
    lemma_u16_roundtrip(o, AF_BLUETOOTH);
    assert(rfcomm_image(a, o).subrange(0, 2) =~= u16_bytes(o, AF_BLUETOOTH));
    assert(rfcomm_image(a, o).subrange(2, 8) =~= a.addr@);
}

} // verus!
