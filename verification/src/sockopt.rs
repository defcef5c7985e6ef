//! Payloads of the Bluetooth socket options, and the kernel byte layouts of
//! the ones that have a layout of their own.

use crate::order::{
    lemma_u16_bytes_of_value, lemma_u16_roundtrip, lemma_u32_bytes_of_value, lemma_u32_roundtrip, u16_bytes, u16_from_bytes, u16_to_bytes, u16_value,
    u32_bytes, u32_from_bytes, u32_to_bytes, u32_value, ByteOrder,
};
use vstd::prelude::*;

verus! {

/// The size of the kernel's `struct hci_ufilter`.
pub const HCI_UFILTER_SIZE: usize = 16;
/// The size of the kernel's `struct l2cap_options`.
pub const L2CAP_OPTIONS_SIZE: usize = 12;

/// `BT_SECURITY_SDP`.
pub const BT_SECURITY_SDP: u8 = 0;
/// `BT_SECURITY_LOW`.
pub const BT_SECURITY_LOW: u8 = 1;
/// `BT_SECURITY_MEDIUM`.
pub const BT_SECURITY_MEDIUM: u8 = 2;
/// `BT_SECURITY_HIGH`.
pub const BT_SECURITY_HIGH: u8 = 3;
/// `BT_SECURITY_FIPS`.
pub const BT_SECURITY_FIPS: u8 = 4;

/// `BT_SECURITY_*`.
#[derive(Debug, Clone, Copy, PartialEq, Eq, Hash)]
pub struct BluetoothSecurityLevel(u8);

impl View for BluetoothSecurityLevel {
    type V = u8;

    closed spec fn view(&self) -> u8 {
        self.0
    }
}

impl BluetoothSecurityLevel {
    /// `BT_SECURITY_SDP`.
    pub fn sdp() -> (r: Self)
        ensures
            r@ == BT_SECURITY_SDP,
    {
        BluetoothSecurityLevel(BT_SECURITY_SDP)
    }

    /// `BT_SECURITY_LOW`.
    pub fn low() -> (r: Self)
        ensures
            r@ == BT_SECURITY_LOW,
    {
        BluetoothSecurityLevel(BT_SECURITY_LOW)
    }

    /// `BT_SECURITY_MEDIUM`.
    pub fn medium() -> (r: Self)
        ensures
            r@ == BT_SECURITY_MEDIUM,
    {
        BluetoothSecurityLevel(BT_SECURITY_MEDIUM)
    }

    /// `BT_SECURITY_HIGH`.
    pub fn high() -> (r: Self)
        ensures
            r@ == BT_SECURITY_HIGH,
    {
        BluetoothSecurityLevel(BT_SECURITY_HIGH)
    }

    /// `BT_SECURITY_FIPS`.
    pub fn fips() -> (r: Self)
        ensures
            r@ == BT_SECURITY_FIPS,
    {
        BluetoothSecurityLevel(BT_SECURITY_FIPS)
    }

    /// Construct a `BluetoothSecurityLevel` from a raw integer.
    pub fn from_raw(raw: u8) -> (r: Self)
        ensures
            r@ == raw,
    {
        BluetoothSecurityLevel(raw)
    }

    /// Return the raw integer.
    pub fn as_raw(self) -> (r: u8)
        ensures
            r == self@,
    {
        self.0
    }

    /// Two values with the same raw integer are the same.
    pub proof fn lemma_view_eq(a: BluetoothSecurityLevel, b: BluetoothSecurityLevel)
        requires
            a@ == b@,
        ensures
            a == b,
    {
    }
}

/// `struct bt_security`.
#[derive(Debug, Clone, Copy, PartialEq, Eq, Hash)]
pub struct BluetoothSecurity {
    /// Security level.
    pub level: BluetoothSecurityLevel,
    /// Key size.
    pub key_size: u8,
}

/// `BT_POWER_FORCE_ACTIVE_OFF`.
pub const BT_POWER_FORCE_ACTIVE_OFF: u8 = 0;
/// `BT_POWER_FORCE_ACTIVE_ON`.
pub const BT_POWER_FORCE_ACTIVE_ON: u8 = 1;

/// `struct bt_power`.
#[derive(Debug, Clone, Copy, PartialEq, Eq, Hash)]
pub struct BluetoothPower {
    /// Whether to force active mode.
    pub force_active: u8,
}

impl BluetoothPower {
    /// `BT_POWER_FORCE_ACTIVE_OFF`.
    pub fn force_active_off() -> (r: Self)
        ensures
            r.force_active == BT_POWER_FORCE_ACTIVE_OFF,
    {
        BluetoothPower { force_active: BT_POWER_FORCE_ACTIVE_OFF }
    }

    /// `BT_POWER_FORCE_ACTIVE_ON`.
    pub fn force_active_on() -> (r: Self)
        ensures
            r.force_active == BT_POWER_FORCE_ACTIVE_ON,
    {
        BluetoothPower { force_active: BT_POWER_FORCE_ACTIVE_ON }
    }
}

/// `BT_CHANNEL_POLICY_BREDR_ONLY`.
pub const BT_CHANNEL_POLICY_BREDR_ONLY: u32 = 0;
/// `BT_CHANNEL_POLICY_BREDR_PREFERRED`.
pub const BT_CHANNEL_POLICY_BREDR_PREFERRED: u32 = 1;
/// `BT_CHANNEL_POLICY_AMP_PREFERRED`.
pub const BT_CHANNEL_POLICY_AMP_PREFERRED: u32 = 2;

/// `BT_CHANNEL_POLICY_*`.
#[derive(Debug, Clone, Copy, PartialEq, Eq, Hash)]
pub struct BluetoothChannelPolicy(u32);

impl View for BluetoothChannelPolicy {
    type V = u32;

    closed spec fn view(&self) -> u32 {
        self.0
    }
}

impl BluetoothChannelPolicy {
    /// `BT_CHANNEL_POLICY_BREDR_ONLY`.
    pub fn bredr_only() -> (r: Self)
        ensures
            r@ == BT_CHANNEL_POLICY_BREDR_ONLY,
    {
        BluetoothChannelPolicy(BT_CHANNEL_POLICY_BREDR_ONLY)
    }

    /// `BT_CHANNEL_POLICY_BREDR_PREFERRED`.
    pub fn bredr_preferred() -> (r: Self)
        ensures
            r@ == BT_CHANNEL_POLICY_BREDR_PREFERRED,
    {
        BluetoothChannelPolicy(BT_CHANNEL_POLICY_BREDR_PREFERRED)
    }

    /// `BT_CHANNEL_POLICY_AMP_PREFERRED`.
    pub fn amp_preferred() -> (r: Self)
        ensures
            r@ == BT_CHANNEL_POLICY_AMP_PREFERRED,
    {
        BluetoothChannelPolicy(BT_CHANNEL_POLICY_AMP_PREFERRED)
    }

    /// Construct a `BluetoothChannelPolicy` from a raw integer.
    pub fn from_raw(raw: u32) -> (r: Self)
        ensures
            r@ == raw,
    {
        BluetoothChannelPolicy(raw)
    }

    /// Return the raw integer.
    pub fn as_raw(self) -> (r: u32)
        ensures
            r == self@,
    {
        self.0
    }

    /// Two values with the same raw integer are the same.
    pub proof fn lemma_view_eq(a: BluetoothChannelPolicy, b: BluetoothChannelPolicy)
        requires
            a@ == b@,
        ensures
            a == b,
    {
    }
}

/// `BT_VOICE_TRANSPARENT`.
pub const BT_VOICE_TRANSPARENT: u16 = 0x0003;
/// `BT_VOICE_CVSD_16BIT`.
pub const BT_VOICE_CVSD_16BIT: u16 = 0x0060;
/// `BT_VOICE_TRANSPARENT_16BIT`.
pub const BT_VOICE_TRANSPARENT_16BIT: u16 = 0x0063;

/// `BT_VOICE_*`.
#[derive(Debug, Clone, Copy, PartialEq, Eq, Hash)]
pub struct BluetoothVoiceSetting(u16);

impl View for BluetoothVoiceSetting {
    type V = u16;

    closed spec fn view(&self) -> u16 {
        self.0
    }
}

impl BluetoothVoiceSetting {
    /// `BT_VOICE_TRANSPARENT`.
    pub fn transparent() -> (r: Self)
        ensures
            r@ == BT_VOICE_TRANSPARENT,
    {
        BluetoothVoiceSetting(BT_VOICE_TRANSPARENT)
    }

    /// `BT_VOICE_CVSD_16BIT`.
    pub fn cvsd_16bit() -> (r: Self)
        ensures
            r@ == BT_VOICE_CVSD_16BIT,
    {
        BluetoothVoiceSetting(BT_VOICE_CVSD_16BIT)
    }

    /// `BT_VOICE_TRANSPARENT_16BIT`.
    pub fn transparent_16bit() -> (r: Self)
        ensures
            r@ == BT_VOICE_TRANSPARENT_16BIT,
    {
        BluetoothVoiceSetting(BT_VOICE_TRANSPARENT_16BIT)
    }

    /// Construct a `BluetoothVoiceSetting` from a raw integer.
    pub fn from_raw(raw: u16) -> (r: Self)
        ensures
            r@ == raw,
    {
        BluetoothVoiceSetting(raw)
    }

    /// Return the raw integer.
    pub fn as_raw(self) -> (r: u16)
        ensures
            r == self@,
    {
        self.0
    }

    /// Two values with the same raw integer are the same.
    pub proof fn lemma_view_eq(a: BluetoothVoiceSetting, b: BluetoothVoiceSetting)
        requires
            a@ == b@,
        ensures
            a == b,
    {
    }
}

/// `struct bt_voice`.
#[derive(Debug, Clone, Copy, PartialEq, Eq, Hash)]
pub struct BluetoothVoice {
    /// Voice setting.
    pub setting: BluetoothVoiceSetting,
}

impl BluetoothVoice {
    /// `BT_VOICE_TRANSPARENT`.
    pub fn transparent() -> (r: Self)
        ensures
            r.setting@ == BT_VOICE_TRANSPARENT,
    {
        BluetoothVoice { setting: BluetoothVoiceSetting::transparent() }
    }

    /// `BT_VOICE_CVSD_16BIT`.
    pub fn cvsd_16bit() -> (r: Self)
        ensures
            r.setting@ == BT_VOICE_CVSD_16BIT,
    {
        BluetoothVoice { setting: BluetoothVoiceSetting::cvsd_16bit() }
    }

    /// `BT_VOICE_TRANSPARENT_16BIT`.
    pub fn transparent_16bit() -> (r: Self)
        ensures
            r.setting@ == BT_VOICE_TRANSPARENT_16BIT,
    {
        BluetoothVoice { setting: BluetoothVoiceSetting::transparent_16bit() }
    }
}

/// `BT_MODE_BASIC`.
pub const BT_MODE_BASIC: u8 = 0x00;
/// `BT_MODE_ERTM`.
pub const BT_MODE_ERTM: u8 = 0x01;
/// `BT_MODE_STREAMING`.
pub const BT_MODE_STREAMING: u8 = 0x02;
/// `BT_MODE_LE_FLOWCTL`.
pub const BT_MODE_LE_FLOWCTL: u8 = 0x03;
/// `BT_MODE_EXT_FLOWCTL`.
pub const BT_MODE_EXT_FLOWCTL: u8 = 0x04;

/// `BT_MODE_*`.
#[derive(Debug, Clone, Copy, PartialEq, Eq, Hash)]
pub struct BluetoothMode(u8);

impl View for BluetoothMode {
    type V = u8;

    closed spec fn view(&self) -> u8 {
        self.0
    }
}

impl BluetoothMode {
    /// `BT_MODE_BASIC`.
    pub fn basic() -> (r: Self)
        ensures
            r@ == BT_MODE_BASIC,
    {
        BluetoothMode(BT_MODE_BASIC)
    }

    /// `BT_MODE_ERTM`.
    pub fn ertm() -> (r: Self)
        ensures
            r@ == BT_MODE_ERTM,
    {
        BluetoothMode(BT_MODE_ERTM)
    }

    /// `BT_MODE_STREAMING`.
    pub fn streaming() -> (r: Self)
        ensures
            r@ == BT_MODE_STREAMING,
    {
        BluetoothMode(BT_MODE_STREAMING)
    }

    /// `BT_MODE_LE_FLOWCTL`.
    pub fn le_flowctl() -> (r: Self)
        ensures
            r@ == BT_MODE_LE_FLOWCTL,
    {
        BluetoothMode(BT_MODE_LE_FLOWCTL)
    }

    /// `BT_MODE_EXT_FLOWCTL`.
    pub fn ext_flowctl() -> (r: Self)
        ensures
            r@ == BT_MODE_EXT_FLOWCTL,
    {
        BluetoothMode(BT_MODE_EXT_FLOWCTL)
    }

    /// Construct a `BluetoothMode` from a raw integer.
    pub fn from_raw(raw: u8) -> (r: Self)
        ensures
            r@ == raw,
    {
        BluetoothMode(raw)
    }

    /// Return the raw integer.
    pub fn as_raw(self) -> (r: u8)
        ensures
            r == self@,
    {
        self.0
    }

    /// Two values with the same raw integer are the same.
    pub proof fn lemma_view_eq(a: BluetoothMode, b: BluetoothMode)
        requires
            a@ == b@,
        ensures
            a == b,
    {
    }
}

/// `L2CAP_MODE_BASIC`.
pub const L2CAP_MODE_BASIC: u8 = 0x00;
/// `L2CAP_MODE_RETRANS`.
pub const L2CAP_MODE_RETRANS: u8 = 0x01;
/// `L2CAP_MODE_FLOWCTL`.
pub const L2CAP_MODE_FLOWCTL: u8 = 0x02;
/// `L2CAP_MODE_ERTM`.
pub const L2CAP_MODE_ERTM: u8 = 0x03;
/// `L2CAP_MODE_STREAMING`.
pub const L2CAP_MODE_STREAMING: u8 = 0x04;
/// `L2CAP_MODE_LE_FLOWCTL`.
pub const L2CAP_MODE_LE_FLOWCTL: u8 = 0x80;
/// `L2CAP_MODE_EXT_FLOWCTL`.
pub const L2CAP_MODE_EXT_FLOWCTL: u8 = 0x81;

/// `L2CAP_MODE_*`.
#[derive(Debug, Clone, Copy, PartialEq, Eq, Hash)]
pub struct L2capMode(u8);

impl View for L2capMode {
    type V = u8;

    closed spec fn view(&self) -> u8 {
        self.0
    }
}

impl L2capMode {
    /// `L2CAP_MODE_BASIC`.
    pub fn basic() -> (r: Self)
        ensures
            r@ == L2CAP_MODE_BASIC,
    {
        L2capMode(L2CAP_MODE_BASIC)
    }

    /// `L2CAP_MODE_RETRANS`.
    pub fn retrans() -> (r: Self)
        ensures
            r@ == L2CAP_MODE_RETRANS,
    {
        L2capMode(L2CAP_MODE_RETRANS)
    }

    /// `L2CAP_MODE_FLOWCTL`.
    pub fn flowctl() -> (r: Self)
        ensures
            r@ == L2CAP_MODE_FLOWCTL,
    {
        L2capMode(L2CAP_MODE_FLOWCTL)
    }

    /// `L2CAP_MODE_ERTM`.
    pub fn ertm() -> (r: Self)
        ensures
            r@ == L2CAP_MODE_ERTM,
    {
        L2capMode(L2CAP_MODE_ERTM)
    }

    /// `L2CAP_MODE_STREAMING`.
    pub fn streaming() -> (r: Self)
        ensures
            r@ == L2CAP_MODE_STREAMING,
    {
        L2capMode(L2CAP_MODE_STREAMING)
    }

    /// `L2CAP_MODE_LE_FLOWCTL`.
    pub fn le_flowctl() -> (r: Self)
        ensures
            r@ == L2CAP_MODE_LE_FLOWCTL,
    {
        L2capMode(L2CAP_MODE_LE_FLOWCTL)
    }

    /// `L2CAP_MODE_EXT_FLOWCTL`.
    pub fn ext_flowctl() -> (r: Self)
        ensures
            r@ == L2CAP_MODE_EXT_FLOWCTL,
    {
        L2capMode(L2CAP_MODE_EXT_FLOWCTL)
    }

    /// Construct a `L2capMode` from a raw integer.
    pub fn from_raw(raw: u8) -> (r: Self)
        ensures
            r@ == raw,
    {
        L2capMode(raw)
    }

    /// Return the raw integer.
    pub fn as_raw(self) -> (r: u8)
        ensures
            r == self@,
    {
        self.0
    }

    /// Two values with the same raw integer are the same.
    pub proof fn lemma_view_eq(a: L2capMode, b: L2capMode)
        requires
            a@ == b@,
        ensures
            a == b,
    {
    }
}

/// The userspace `HCI_FILTER` socket option payload.
#[derive(Debug, Clone, Copy, PartialEq, Eq, Hash)]
pub struct HciFilter {
    /// Packet type mask.
    pub type_mask: u32,
    /// Event mask.
    pub event_mask: [u32; 2],
    /// Opcode in host byte order.
    pub opcode: u16,
}

/// The `struct hci_ufilter` the kernel reads for `f`: the packet type mask
/// and the two event mask words in host order `o`, the opcode little-endian,
/// and two zero bytes of padding.
pub open spec fn hci_filter_image(f: HciFilter, o: ByteOrder) -> Seq<u8> {
    u32_bytes(o, f.type_mask) + u32_bytes(o, f.event_mask[0]) + u32_bytes(o, f.event_mask[1])
        + u16_bytes(ByteOrder::Little, f.opcode) + seq![0u8, 0u8]
}

/// The filter that the `struct hci_ufilter` bytes `b`, whose host-order
/// fields are in order `o`, hold.
pub open spec fn hci_filter_decode(o: ByteOrder, b: Seq<u8>) -> HciFilter {
    HciFilter {
        type_mask: u32_value(o, b[0], b[1], b[2], b[3]),
        event_mask: [u32_value(o, b[4], b[5], b[6], b[7]), u32_value(o, b[8], b[9], b[10], b[11])],
        opcode: u16_value(ByteOrder::Little, b[12], b[13]),
    }
}

impl HciFilter {
    /// The filter held by the kernel's `struct hci_ufilter` `raw`, whose
    /// host-order fields are in order `order`; the opcode, stored
    /// little-endian, comes back in host byte order.
    pub fn from_raw(raw: [u8; 16], order: ByteOrder) -> (r: Self)
        ensures
            r == hci_filter_decode(order, raw@),
    {
        let type_mask = u32_from_bytes(order, raw[0], raw[1], raw[2], raw[3]);
        let e0 = u32_from_bytes(order, raw[4], raw[5], raw[6], raw[7]);
        let e1 = u32_from_bytes(order, raw[8], raw[9], raw[10], raw[11]);
        let opcode = u16_from_bytes(ByteOrder::Little, raw[12], raw[13]);
        let r = HciFilter { type_mask, event_mask: [e0, e1], opcode };
        assert(r.event_mask =~= hci_filter_decode(order, raw@).event_mask);
        r
    }

    /// The kernel's `struct hci_ufilter` for this filter, with the host-order
    /// fields in order `order`, the opcode little-endian and the padding
    /// zeroed.
    pub fn to_raw(self, order: ByteOrder) -> (r: [u8; 16])
        ensures
            r@ == hci_filter_image(self, order),
    {
        let t = u32_to_bytes(order, self.type_mask);
        let e0 = u32_to_bytes(order, self.event_mask[0]);
        let e1 = u32_to_bytes(order, self.event_mask[1]);
        let op = u16_to_bytes(ByteOrder::Little, self.opcode);
        let r = [
            t[0],
            t[1],
            t[2],
            t[3],
            e0[0],
            e0[1],
            e0[2],
            e0[3],
            e1[0],
            e1[1],
            e1[2],
            e1[3],
            op[0],
            op[1],
            0u8,
            0u8,
        ];
        assert(r@ =~= hci_filter_image(self, order));
        r
    }
}

/// Every filter is laid out as `struct hci_ufilter`: the image is that long,
/// holds the opcode little-endian at offset 12 whatever the host order, ends
/// in zeroed padding; and reading the image back, in the byte order it was
/// written in, gives the same filter.
pub proof fn lemma_hci_filter_roundtrip(f: HciFilter, o: ByteOrder)
    ensures
        hci_filter_image(f, o).len() == HCI_UFILTER_SIZE,
        hci_filter_image(f, o).subrange(12, 14) == u16_bytes(ByteOrder::Little, f.opcode),
        hci_filter_image(f, o)[14] == 0,
        hci_filter_image(f, o)[15] == 0,
        hci_filter_decode(o, hci_filter_image(f, o)) == f,
{
    let img = hci_filter_image(f, o);
    lemma_u32_roundtrip(o, f.type_mask);
    lemma_u32_roundtrip(o, f.event_mask[0]);
    lemma_u32_roundtrip(o, f.event_mask[1]);
    lemma_u16_roundtrip(ByteOrder::Little, f.opcode);
    assert(img.subrange(12, 14) =~= u16_bytes(ByteOrder::Little, f.opcode));
    assert(hci_filter_decode(o, img).event_mask =~= f.event_mask);
}

/// A `struct hci_ufilter` whose padding is zero is exactly the image of the
/// filter it holds: reading it and writing the filter back, in the same byte
/// order, gives the same bytes.
pub proof fn lemma_hci_filter_bytes_roundtrip(b: Seq<u8>, o: ByteOrder)
    requires
        b.len() == HCI_UFILTER_SIZE,
        b[14] == 0,
        b[15] == 0,
    ensures
        hci_filter_image(hci_filter_decode(o, b), o) == b,
{
    lemma_u32_bytes_of_value(o, b[0], b[1], b[2], b[3]);
    lemma_u32_bytes_of_value(o, b[4], b[5], b[6], b[7]);
    lemma_u32_bytes_of_value(o, b[8], b[9], b[10], b[11]);
    lemma_u16_bytes_of_value(ByteOrder::Little, b[12], b[13]);
    assert(hci_filter_image(hci_filter_decode(o, b), o) =~= b);
}

/// `struct l2cap_options`.
#[derive(Debug, Clone, Copy, PartialEq, Eq, Hash)]
pub struct L2capOptions {
    /// Outgoing MTU.
    pub omtu: u16,
    /// Incoming MTU.
    pub imtu: u16,
    /// Flush timeout.
    pub flush_to: u16,
    /// Mode.
    pub mode: L2capMode,
    /// Frame check sequence mode.
    pub fcs: u8,
    /// Maximum transmissions.
    pub max_tx: u8,
    /// Transmission window size.
    pub txwin_size: u16,
}

/// The `struct l2cap_options` the kernel reads for `x`: the three MTU and
/// timeout words in host order `o`, the mode, FCS and transmission bytes, one
/// zero byte of padding, and the window size in host order.
pub open spec fn l2cap_options_image(x: L2capOptions, o: ByteOrder) -> Seq<u8> {
    u16_bytes(o, x.omtu) + u16_bytes(o, x.imtu) + u16_bytes(o, x.flush_to) + seq![
        x.mode@,
        x.fcs,
        x.max_tx,
        0u8,
    ] + u16_bytes(o, x.txwin_size)
}

/// The options that the `struct l2cap_options` bytes `b`, whose host-order
/// fields are in order `o`, hold.
pub closed spec fn l2cap_options_decode(o: ByteOrder, b: Seq<u8>) -> L2capOptions {
    L2capOptions {
        omtu: u16_value(o, b[0], b[1]),
        imtu: u16_value(o, b[2], b[3]),
        flush_to: u16_value(o, b[4], b[5]),
        mode: L2capMode(b[6]),
        fcs: b[7],
        max_tx: b[8],
        txwin_size: u16_value(o, b[10], b[11]),
    }
}

impl L2capOptions {
    /// The options held by the kernel's `struct l2cap_options` `raw`, whose
    /// host-order fields are in order `order`.
    pub fn from_raw(raw: [u8; 12], order: ByteOrder) -> (r: Self)
        ensures
            r == l2cap_options_decode(order, raw@),
            r.omtu == u16_value(order, raw@[0], raw@[1]),
            r.imtu == u16_value(order, raw@[2], raw@[3]),
            r.flush_to == u16_value(order, raw@[4], raw@[5]),
            r.mode@ == raw@[6],
            r.fcs == raw@[7],
            r.max_tx == raw@[8],
            r.txwin_size == u16_value(order, raw@[10], raw@[11]),
    {
        L2capOptions {
            omtu: u16_from_bytes(order, raw[0], raw[1]),
            imtu: u16_from_bytes(order, raw[2], raw[3]),
            flush_to: u16_from_bytes(order, raw[4], raw[5]),
            mode: L2capMode::from_raw(raw[6]),
            fcs: raw[7],
            max_tx: raw[8],
            txwin_size: u16_from_bytes(order, raw[10], raw[11]),
        }
    }

    /// The kernel's `struct l2cap_options` for these options, with the
    /// host-order fields in order `order` and the padding zeroed.
    pub fn to_raw(self, order: ByteOrder) -> (r: [u8; 12])
        ensures
            r@ == l2cap_options_image(self, order),
    {
        let omtu = u16_to_bytes(order, self.omtu);
        let imtu = u16_to_bytes(order, self.imtu);
        let flush_to = u16_to_bytes(order, self.flush_to);
        let txwin = u16_to_bytes(order, self.txwin_size);
        let r = [
            omtu[0],
            omtu[1],
            imtu[0],
            imtu[1],
            flush_to[0],
            flush_to[1],
            self.mode.as_raw(),
            self.fcs,
            self.max_tx,
            0u8,
            txwin[0],
            txwin[1],
        ];
        assert(r@ =~= l2cap_options_image(self, order));
        r
    }
}

/// Every set of options is laid out as `struct l2cap_options`: the image is
/// that long, its padding byte (offset 9) is zero; and reading the image
/// back, in the byte order it was written in, gives the same options.
pub proof fn lemma_l2cap_options_roundtrip(x: L2capOptions, o: ByteOrder)
    ensures
        l2cap_options_image(x, o).len() == L2CAP_OPTIONS_SIZE,
        l2cap_options_image(x, o)[9] == 0,
        l2cap_options_decode(o, l2cap_options_image(x, o)) == x,
{
    lemma_u16_roundtrip(o, x.omtu);
    lemma_u16_roundtrip(o, x.imtu);
    lemma_u16_roundtrip(o, x.flush_to);
    lemma_u16_roundtrip(o, x.txwin_size);
}

/// A `struct l2cap_options` whose padding is zero is exactly the image of the
/// options it holds: reading it and writing the options back, in the same
/// byte order, gives the same bytes.
pub proof fn lemma_l2cap_options_bytes_roundtrip(b: Seq<u8>, o: ByteOrder)
    requires
        b.len() == L2CAP_OPTIONS_SIZE,
        b[9] == 0,
    ensures
        l2cap_options_image(l2cap_options_decode(o, b), o) == b,
{
    lemma_u16_bytes_of_value(o, b[0], b[1]);
    lemma_u16_bytes_of_value(o, b[2], b[3]);
    lemma_u16_bytes_of_value(o, b[4], b[5]);
    lemma_u16_bytes_of_value(o, b[10], b[11]);
    assert(l2cap_options_image(l2cap_options_decode(o, b), o) =~= b);
}

/// `struct l2cap_conninfo`.
#[derive(Debug, Clone, Copy, PartialEq, Eq, Hash)]
pub struct L2capConnInfo {
    /// HCI handle.
    pub hci_handle: u16,
    /// Device class.
    pub dev_class: [u8; 3],
}

} // verus!
