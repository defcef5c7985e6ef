use bluetooth::addr::{
    BdAddr, BdAddrType, Errno, HciChannel, HciDevice, SocketAddrAny, SocketAddrHci,
    SocketAddrL2cap, SocketAddrRfcomm, SocketAddrSco, AF_BLUETOOTH,
};
use bluetooth::order::{u16_from_bytes, u16_to_bytes, u32_from_bytes, u32_to_bytes, ByteOrder};
use bluetooth::protocol::{self, new_raw_protocol, Protocol};
use bluetooth::sockopt::{
    BluetoothChannelPolicy, BluetoothPower, BluetoothSecurityLevel, BluetoothVoice,
    BluetoothVoiceSetting, HciFilter, L2capMode, L2capOptions,
};

fn l2cap_sample() -> SocketAddrL2cap {
    let addr = BdAddr::new([0x06, 0x05, 0x04, 0x03, 0x02, 0x01]);
    SocketAddrL2cap::new(addr, BdAddrType::le_public(), 0x1001, 0x0040)
}

#[test]
fn host_order_matches_native_bytes() {
    let order = ByteOrder::host();
    for x in [0u16, 1, 0x00ff, 0x1234, 0xff00, 0xffff] {
        assert_eq!(u16_to_bytes(order, x), x.to_ne_bytes());
        let b = x.to_ne_bytes();
        assert_eq!(u16_from_bytes(order, b[0], b[1]), x);
    }
    for x in [0u32, 1, 0x1234_5678, 0xdead_beef, u32::MAX] {
        assert_eq!(u32_to_bytes(order, x), x.to_ne_bytes());
        let b = x.to_ne_bytes();
        assert_eq!(u32_from_bytes(order, b[0], b[1], b[2], b[3]), x);
    }
}

#[test]
fn byte_orders_lay_out_integers() {
    assert_eq!(u16_to_bytes(ByteOrder::Little, 0x1234), [0x34, 0x12]);
    assert_eq!(u16_to_bytes(ByteOrder::Big, 0x1234), [0x12, 0x34]);
    assert_eq!(u32_to_bytes(ByteOrder::Little, 0x1234_5678), [0x78, 0x56, 0x34, 0x12]);
    assert_eq!(u32_to_bytes(ByteOrder::Big, 0x1234_5678), [0x12, 0x34, 0x56, 0x78]);
    assert_eq!(u16_from_bytes(ByteOrder::Big, 0xab, 0xcd), 0xabcd);
    assert_eq!(u32_from_bytes(ByteOrder::Little, 1, 2, 3, 4), 0x0403_0201);
    assert_eq!(ByteOrder::from_probe(1), ByteOrder::Little);
    assert_eq!(ByteOrder::from_probe(256), ByteOrder::Big);
}

#[test]
fn hci_images_in_both_orders() {
    let a = SocketAddrHci::new(HciDevice::from_raw(0x0102), HciChannel::control());
    assert_eq!(a.to_sockaddr_bytes(ByteOrder::Little), vec![31, 0, 2, 1, 3, 0]);
    assert_eq!(a.to_sockaddr_bytes(ByteOrder::Big), vec![0, 31, 1, 2, 0, 3]);
    for order in [ByteOrder::Little, ByteOrder::Big] {
        let any = SocketAddrAny::from_bytes(order, a.to_sockaddr_bytes(order)).unwrap();
        assert_eq!(any.address_family(), AF_BLUETOOTH);
        assert_eq!(SocketAddrHci::read_from(&any), Ok(a));
    }
}

#[test]
fn l2cap_images_in_both_orders() {
    let a = l2cap_sample();
    assert_eq!(
        a.to_sockaddr_bytes(ByteOrder::Little),
        vec![31, 0, 0x01, 0x10, 6, 5, 4, 3, 2, 1, 0x40, 0x00, 1, 0]
    );
    // The PSM and CID are little-endian whatever the host order.
    assert_eq!(
        a.to_sockaddr_bytes(ByteOrder::Big),
        vec![0, 31, 0x01, 0x10, 6, 5, 4, 3, 2, 1, 0x40, 0x00, 1, 0]
    );
    for order in [ByteOrder::Little, ByteOrder::Big] {
        let any = SocketAddrAny::from_bytes(order, a.to_sockaddr_bytes(order)).unwrap();
        assert_eq!(SocketAddrL2cap::read_from(&any), Ok(a));
    }
}

#[test]
fn sco_and_rfcomm_images() {
    let addr = BdAddr::new([1, 2, 3, 4, 5, 6]);
    let sco = SocketAddrSco::new(addr);
    assert_eq!(sco.to_sockaddr_bytes(ByteOrder::Big), vec![0, 31, 1, 2, 3, 4, 5, 6]);
    let rc = SocketAddrRfcomm::new(addr, 9);
    assert_eq!(
        rc.to_sockaddr_bytes(ByteOrder::Little),
        vec![31, 0, 1, 2, 3, 4, 5, 6, 9, 0]
    );
    let any = SocketAddrAny::from_bytes(ByteOrder::Little, rc.to_sockaddr_bytes(ByteOrder::Little))
        .unwrap();
    assert_eq!(SocketAddrRfcomm::read_from(&any), Ok(rc));
}

#[test]
fn short_bluetooth_addresses_are_invalid() {
    let order = ByteOrder::Little;
    let any = SocketAddrAny::from_bytes(order, vec![31, 0, 1, 2]).unwrap();
    assert_eq!(SocketAddrHci::read_from(&any), Err(Errno::INVAL));
    assert_eq!(SocketAddrL2cap::read_from(&any), Err(Errno::INVAL));
    assert_eq!(SocketAddrSco::read_from(&any), Err(Errno::INVAL));
    assert_eq!(SocketAddrRfcomm::read_from(&any), Err(Errno::INVAL));
    assert_eq!(Errno::INVAL.raw_os_error(), 22);
}

#[test]
fn other_families_are_not_supported() {
    let any = SocketAddrAny::from_bytes(ByteOrder::Little, vec![10, 0, 0, 0, 0, 0, 0, 0, 0, 0, 0, 0, 0, 0])
        .unwrap();
    assert_eq!(any.address_family(), 10);
    assert_eq!(SocketAddrHci::read_from(&any), Err(Errno::AFNOSUPPORT));
    assert_eq!(SocketAddrL2cap::read_from(&any), Err(Errno::AFNOSUPPORT));
    assert_eq!(SocketAddrSco::read_from(&any), Err(Errno::AFNOSUPPORT));
    assert_eq!(SocketAddrRfcomm::read_from(&any), Err(Errno::AFNOSUPPORT));
    assert_eq!(Errno::AFNOSUPPORT.raw_os_error(), 97);
}

#[test]
fn any_address_needs_a_family() {
    assert!(SocketAddrAny::from_bytes(ByteOrder::Little, vec![31]).is_none());
    let any = SocketAddrAny::from_bytes(ByteOrder::Big, vec![0, 31, 7]).unwrap();
    assert_eq!(any.addr_len(), 3);
    assert_eq!(any.byte_order(), ByteOrder::Big);
    assert_eq!(any.clone().as_bytes(), &[0, 31, 7]);
}

#[test]
fn setters_change_one_field() {
    let mut a = l2cap_sample();
    a.set_psm(0x0003);
    a.set_cid(0x0005);
    a.set_addr_type(BdAddrType::bredr());
    a.set_addr(BdAddr::new([9; 6]));
    assert_eq!(a.psm(), 3);
    assert_eq!(a.cid(), 5);
    assert_eq!(a.addr_type().as_raw(), 0);
    assert_eq!(a.addr().into_bytes(), [9; 6]);

    let mut h = SocketAddrHci::new(HciDevice::none(), HciChannel::user());
    assert_eq!(h.device().as_raw(), 0xffff);
    h.set_device(HciDevice::from_raw(1));
    h.set_channel(HciChannel::monitor());
    assert_eq!(h.device().as_raw(), 1);
    assert_eq!(h.channel().as_raw(), 2);

    let mut r = SocketAddrRfcomm::new(BdAddr::new([0; 6]), 1);
    r.set_channel(30);
    r.set_addr(BdAddr::new([1; 6]));
    assert_eq!(r.channel(), 30);
    assert_eq!(r.addr().as_bytes(), &[1; 6]);

    let mut s = SocketAddrSco::new(BdAddr::new([0; 6]));
    s.set_addr(BdAddr::new([2; 6]));
    assert_eq!(s.addr(), BdAddr::new([2; 6]));
}

#[test]
fn device_address_conversions() {
    let addr = BdAddr::from([1, 2, 3, 4, 5, 6]);
    let bytes: [u8; 6] = addr.into();
    assert_eq!(bytes, [1, 2, 3, 4, 5, 6]);
    assert_eq!(addr.as_bytes(), &[1, 2, 3, 4, 5, 6]);
    assert_eq!(BdAddrType::le_random().as_raw(), 2);
    assert_eq!(BdAddrType::from_raw(7).as_raw(), 7);
    assert_eq!(HciChannel::raw().as_raw(), 0);
    assert_eq!(HciChannel::logging().as_raw(), 4);
}

#[test]
fn protocol_numbers() {
    assert!(Protocol::new(0).is_none());
    assert_eq!(new_raw_protocol(42).as_raw(), 42);
    assert_eq!(protocol::sco().unwrap().as_raw(), 2);
    assert_eq!(protocol::rfcomm().unwrap().as_raw(), 3);
    assert_eq!(protocol::bnep().unwrap().as_raw(), 4);
    assert_eq!(protocol::cmtp().unwrap().as_raw(), 5);
    assert_eq!(protocol::hidp().unwrap().as_raw(), 6);
    assert_eq!(protocol::avdtp().unwrap().as_raw(), 7);
}

#[test]
fn hci_filter_big_endian_image() {
    let filter = HciFilter {
        type_mask: 0x0102_0304,
        event_mask: [0x0506_0708, 0x090a_0b0c],
        opcode: 0x1234,
    };
    let raw = filter.to_raw(ByteOrder::Big);
    assert_eq!(raw, [1, 2, 3, 4, 5, 6, 7, 8, 9, 10, 11, 12, 0x34, 0x12, 0, 0]);
    assert_eq!(HciFilter::from_raw(raw, ByteOrder::Big), filter);
    // Padding is ignored on the way back.
    let mut dirty = raw;
    dirty[15] = 0xee;
    assert_eq!(HciFilter::from_raw(dirty, ByteOrder::Big), filter);
}

#[test]
fn l2cap_options_little_endian_image() {
    let options = L2capOptions {
        omtu: 0x0102,
        imtu: 0x0304,
        flush_to: 0xffff,
        mode: L2capMode::le_flowctl(),
        fcs: 1,
        max_tx: 3,
        txwin_size: 0x003f,
    };
    let raw = options.to_raw(ByteOrder::Little);
    assert_eq!(raw, [2, 1, 4, 3, 0xff, 0xff, 0x80, 1, 3, 0, 0x3f, 0]);
    assert_eq!(L2capOptions::from_raw(raw, ByteOrder::Little), options);
    assert_eq!(L2capOptions::from_raw(raw, ByteOrder::Big).omtu, 0x0201);
}

#[test]
fn option_values() {
    assert_eq!(BluetoothSecurityLevel::sdp().as_raw(), 0);
    assert_eq!(BluetoothSecurityLevel::fips().as_raw(), 4);
    assert_eq!(BluetoothPower::force_active_on().force_active, 1);
    assert_eq!(BluetoothPower::force_active_off().force_active, 0);
    assert_eq!(BluetoothChannelPolicy::amp_preferred().as_raw(), 2);
    assert_eq!(BluetoothVoice::transparent().setting.as_raw(), 0x0003);
    assert_eq!(BluetoothVoice::cvsd_16bit().setting, BluetoothVoiceSetting::from_raw(0x0060));
    assert_eq!(BluetoothVoice::transparent_16bit().setting.as_raw(), 0x0063);
    assert_eq!(L2capMode::ext_flowctl().as_raw(), 0x81);
    assert_eq!(L2capMode::streaming().as_raw(), 4);
}
