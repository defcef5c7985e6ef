use bluetooth::flags::{BluetoothPhy, L2capLinkMode, BT_PHY_ALL, L2CAP_LM_ALL};

#[test]
fn phy_from_bits() {
    assert_eq!(BluetoothPhy::from_bits(0x3).unwrap().bits(), 0x3);
    assert!(BluetoothPhy::from_bits(0x8000).is_none());
    assert_eq!(BluetoothPhy::from_bits_truncate(0xffff_ffff).bits(), BT_PHY_ALL);
    assert_eq!(BluetoothPhy::from_bits_retain(0x8001).bits(), 0x8001);
    assert_eq!(BluetoothPhy::all().bits(), 0x7fff);
    assert!(BluetoothPhy::empty().is_empty());
    assert!(BluetoothPhy::all().is_all());
    assert!(BluetoothPhy::from_bits_retain(0xffff).is_all());
    assert!(!BluetoothPhy::le_1m_tx().is_all());
}

#[test]
fn phy_set_operations() {
    let a = BluetoothPhy::le_1m_tx().union(BluetoothPhy::le_1m_rx());
    assert_eq!(a.bits(), 0x600);
    assert!(a.contains(BluetoothPhy::le_1m_rx()));
    assert!(!a.contains(BluetoothPhy::le_2m_rx()));
    assert!(a.intersects(BluetoothPhy::le_1m_tx().union(BluetoothPhy::br_1m_1slot())));
    assert_eq!(a.intersection(BluetoothPhy::le_1m_tx()), BluetoothPhy::le_1m_tx());
    assert_eq!(a.difference(BluetoothPhy::le_1m_tx()), BluetoothPhy::le_1m_rx());
    assert_eq!(
        a.symmetric_difference(BluetoothPhy::le_1m_tx().union(BluetoothPhy::le_coded_rx())).bits(),
        0x4400
    );
    assert_eq!(a.complement().bits(), 0x7fff & !0x600);
    assert_eq!(BluetoothPhy::from_bits_retain(0x8000).complement().bits(), 0x7fff);
    assert_eq!(a.complement().complement(), a);
}

#[test]
fn phy_mutation() {
    let mut f = BluetoothPhy::empty();
    f.insert(BluetoothPhy::edr_2m_1slot());
    f.insert(BluetoothPhy::edr_3m_5slot());
    assert_eq!(f.bits(), 0x108);
    f.remove(BluetoothPhy::edr_2m_1slot());
    assert_eq!(f, BluetoothPhy::edr_3m_5slot());
    f.toggle(BluetoothPhy::br_1m_3slot());
    assert_eq!(f.bits(), 0x102);
    f.toggle(BluetoothPhy::br_1m_3slot());
    assert_eq!(f.bits(), 0x100);
    f.set(BluetoothPhy::le_coded_tx(), true);
    assert_eq!(f.bits(), 0x2100);
    f.set(BluetoothPhy::edr_3m_5slot(), false);
    assert_eq!(f, BluetoothPhy::le_coded_tx());
    assert_eq!(BluetoothPhy::br_1m_5slot().bits(), 0x4);
    assert_eq!(BluetoothPhy::edr_2m_3slot().bits(), 0x10);
    assert_eq!(BluetoothPhy::edr_2m_5slot().bits(), 0x20);
    assert_eq!(BluetoothPhy::edr_3m_1slot().bits(), 0x40);
    assert_eq!(BluetoothPhy::edr_3m_3slot().bits(), 0x80);
    assert_eq!(BluetoothPhy::le_2m_tx().bits(), 0x800);
}

#[test]
fn link_mode_flags() {
    let mut m = L2capLinkMode::auth();
    m.insert(L2capLinkMode::encrypt());
    assert_eq!(m.bits(), 0x6);
    assert!(m.contains(L2capLinkMode::auth()));
    assert!(!m.intersects(L2capLinkMode::master().union(L2capLinkMode::trusted())));
    assert_eq!(L2capLinkMode::all().bits(), L2CAP_LM_ALL);
    assert_eq!(L2capLinkMode::fips().bits(), 0x40);
    assert_eq!(L2capLinkMode::reliable().bits(), 0x10);
    assert_eq!(L2capLinkMode::secure().bits(), 0x20);
    assert!(L2capLinkMode::from_bits(0x80).is_none());
    assert_eq!(L2capLinkMode::from_bits_truncate(0xff).bits(), 0x7f);
    assert_eq!(m.complement().bits(), 0x79);
    m.remove(L2capLinkMode::all());
    assert!(m.is_empty());
}
