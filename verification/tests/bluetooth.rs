use bluetooth::addr::{
    BdAddr, BdAddrType, Errno, HciChannel, HciDevice, SocketAddrAny, SocketAddrHci,
    SocketAddrL2cap, SocketAddrRfcomm, SocketAddrSco, AF_BLUETOOTH, SOCKADDR_HCI_SIZE,
    SOCKADDR_L2_SIZE, SOCKADDR_RC_SIZE, SOCKADDR_SCO_SIZE,
};
use bluetooth::order::ByteOrder;
use bluetooth::protocol::{self, Protocol};
use bluetooth::sockopt::{
    BluetoothMode, BluetoothPower, BluetoothSecurity, BluetoothVoice, HciFilter, L2capConnInfo,
    L2capMode, L2capOptions, HCI_UFILTER_SIZE, L2CAP_OPTIONS_SIZE,
};
use core::mem::{align_of, size_of};

#[test]
fn test_sizes() {
    // Sizes of `bdaddr_t`, `struct hci_ufilter`, `struct bt_security`,
    // `struct bt_power`, `struct bt_voice`, `struct l2cap_options` and
    // `struct l2cap_conninfo`.
    assert_eq!(size_of::<BdAddr>(), BdAddr::LEN);
    assert_eq!(size_of::<HciFilter>(), HCI_UFILTER_SIZE);
    assert_eq!(size_of::<BluetoothSecurity>(), 2);
    assert_eq!(size_of::<BluetoothPower>(), 1);
    assert_eq!(size_of::<BluetoothVoice>(), 2);
    assert_eq!(size_of::<L2capOptions>(), L2CAP_OPTIONS_SIZE);
    assert_eq!(size_of::<L2capConnInfo>(), 6);

    assert_eq!(align_of::<HciFilter>(), 4);
    assert_eq!(align_of::<BluetoothSecurity>(), 1);
    assert_eq!(align_of::<BluetoothPower>(), 1);
    assert_eq!(align_of::<BluetoothVoice>(), 2);
    assert_eq!(align_of::<L2capOptions>(), 2);
    assert_eq!(align_of::<L2capConnInfo>(), 2);
}

#[test]
fn hci_filter_opcode_is_host_order() {
    let filter = HciFilter {
        type_mask: 1,
        event_mask: [2, 3],
        opcode: 0x1234,
    };

    let order = ByteOrder::host();
    let raw = filter.to_raw(order);
    assert_eq!(raw.last(), Some(&0));
    assert_eq!(u16::from_ne_bytes([raw[12], raw[13]]), 0x1234_u16.to_le());
    assert_eq!(HciFilter::from_raw(raw, order), filter);
}

#[test]
fn l2cap_options_raw_padding_is_zeroed() {
    let options = L2capOptions {
        omtu: 1,
        imtu: 2,
        flush_to: 3,
        mode: L2capMode::ertm(),
        fcs: 4,
        max_tx: 5,
        txwin_size: 6,
    };

    let order = ByteOrder::host();
    let raw = options.to_raw(order);
    assert_eq!(raw[9], 0);
    assert_eq!(L2capOptions::from_raw(raw, order), options);
}

#[test]
fn protocols() {
    assert_eq!(protocol::l2cap(), None);
    assert_eq!(
        protocol::hci().unwrap().as_raw(),
        Protocol::new(1).unwrap().as_raw()
    );
}

#[test]
fn l2cap_options_modes_are_not_bluetooth_modes() {
    assert_eq!(L2capMode::ertm().as_raw(), 0x03);
    assert_eq!(BluetoothMode::ertm().as_raw(), 0x01);
    assert_ne!(L2capMode::ertm().as_raw(), BluetoothMode::ertm().as_raw());
}

#[test]
fn hci_encode_decode() {
    let orig = SocketAddrHci::new(HciDevice::from_raw(2), HciChannel::raw());
    let encoded = orig.as_any();
    assert_eq!(encoded.address_family(), AF_BLUETOOTH);
    let decoded = SocketAddrHci::try_from(encoded).unwrap();
    assert_eq!(decoded, orig);
}

#[test]
fn l2cap_encode_decode() {
    let addr = BdAddr::new([0x06, 0x05, 0x04, 0x03, 0x02, 0x01]);
    let orig = SocketAddrL2cap::new(addr, BdAddrType::le_random(), 0x1001, 0x0004);
    let encoded = orig.as_any();
    assert_eq!(encoded.address_family(), AF_BLUETOOTH);
    assert_eq!(encoded.as_bytes().last(), Some(&0));
    let decoded = SocketAddrL2cap::try_from(encoded).unwrap();
    assert_eq!(decoded, orig);
}

#[test]
fn sco_encode_decode() {
    let orig = SocketAddrSco::new(BdAddr::new([0x06, 0x05, 0x04, 0x03, 0x02, 0x01]));
    let encoded = orig.as_any();
    assert_eq!(encoded.address_family(), AF_BLUETOOTH);
    let decoded = SocketAddrSco::try_from(encoded).unwrap();
    assert_eq!(decoded, orig);
}

#[test]
fn rfcomm_encode_decode() {
    let orig = SocketAddrRfcomm::new(BdAddr::new([0x06, 0x05, 0x04, 0x03, 0x02, 0x01]), 7);
    let encoded = orig.as_any();
    assert_eq!(encoded.address_family(), AF_BLUETOOTH);
    assert_eq!(encoded.as_bytes().last(), Some(&0));
    let decoded = SocketAddrRfcomm::try_from(encoded).unwrap();
    assert_eq!(decoded, orig);
}

/// A `struct sockaddr_in` for 127.0.0.1, port 0, in host byte order.
fn loopback_v4() -> SocketAddrAny {
    let mut bytes = 2u16.to_ne_bytes().to_vec();
    bytes.extend_from_slice(&[0, 0, 127, 0, 0, 1, 0, 0, 0, 0, 0, 0, 0, 0]);
    SocketAddrAny::from_bytes(ByteOrder::host(), bytes).unwrap()
}

#[test]
fn wrong_family() {
    let encoded = loopback_v4();
    assert_eq!(SocketAddrHci::try_from(encoded), Err(Errno::AFNOSUPPORT));
}
