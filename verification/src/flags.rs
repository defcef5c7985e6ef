//! Flag sets: the PHYs a Bluetooth connection may use, and the L2CAP link
//! modes. Each is a `u32` of flag bits; bits that name no flag are kept where
//! the operations say so, exactly as `bitflags` flag types keep them.

use vstd::prelude::*;

verus! {

/// Setting the bits of `b` in `a` makes `a` contain `b`.
proof fn lemma_bits_insert(a: u32, b: u32)
    ensures
        (a | b) & b == b,
{
    assert((a | b) & b == b) by (bit_vector);
}

/// Clearing the bits of `b` in `a` leaves nothing in common with `b`.
proof fn lemma_bits_remove(a: u32, b: u32)
    ensures
        (a & !b) & b == 0,
{
    assert((a & !b) & b == 0) by (bit_vector);
}

/// Flipping the bits of `b` twice flips nothing.
proof fn lemma_bits_toggle(a: u32, b: u32)
    ensures
        (a ^ b) ^ b == a,
{
    assert((a ^ b) ^ b == a) by (bit_vector);
}

/// Complementing twice within the mask `m` gives back the bits of `a` in `m`.
proof fn lemma_bits_complement(a: u32, m: u32)
    ensures
        !(!a & m) & m == a & m,
{
    assert(!(!a & m) & m == a & m) by (bit_vector);
}

/// When `a` lies within `m`, clearing `b` is the same as keeping the
/// complement of `b` within `m`.
proof fn lemma_bits_difference(a: u32, b: u32, m: u32)
    requires
        a & m == a,
    ensures
        a & !b == a & (!b & m),
{
    assert(a & m == a ==> a & !b == a & (!b & m)) by (bit_vector);
}

/// Two bit sets that contain each other are equal.
proof fn lemma_bits_antisymmetric(a: u32, b: u32)
    requires
        a & b == b,
        b & a == a,
    ensures
        a == b,
{
    assert(a & b == b && b & a == a ==> a == b) by (bit_vector);
}

/// Every set of bits contains the empty one, and the empty one contains only
/// itself.
proof fn lemma_bits_empty(a: u32)
    ensures
        a & 0 == 0,
        (0u32 & a == a) <==> a == 0,
{
    assert(a & 0 == 0) by (bit_vector);
    assert((0u32 & a == a) <==> a == 0) by (bit_vector);
}

/// The complement within `m` of nothing is `m`, and of `m` is nothing.
proof fn lemma_bits_complement_ends(m: u32)
    ensures
        !0u32 & m == m,
        !m & m == 0,
{
    assert(!0u32 & m == m) by (bit_vector);
    assert(!m & m == 0) by (bit_vector);
}

/// `BT_PHY_BR_1M_1SLOT`.
pub const BT_PHY_BR_1M_1SLOT: u32 = 0x00000001;
/// `BT_PHY_BR_1M_3SLOT`.
pub const BT_PHY_BR_1M_3SLOT: u32 = 0x00000002;
/// `BT_PHY_BR_1M_5SLOT`.
pub const BT_PHY_BR_1M_5SLOT: u32 = 0x00000004;
/// `BT_PHY_EDR_2M_1SLOT`.
pub const BT_PHY_EDR_2M_1SLOT: u32 = 0x00000008;
/// `BT_PHY_EDR_2M_3SLOT`.
pub const BT_PHY_EDR_2M_3SLOT: u32 = 0x00000010;
/// `BT_PHY_EDR_2M_5SLOT`.
pub const BT_PHY_EDR_2M_5SLOT: u32 = 0x00000020;
/// `BT_PHY_EDR_3M_1SLOT`.
pub const BT_PHY_EDR_3M_1SLOT: u32 = 0x00000040;
/// `BT_PHY_EDR_3M_3SLOT`.
pub const BT_PHY_EDR_3M_3SLOT: u32 = 0x00000080;
/// `BT_PHY_EDR_3M_5SLOT`.
pub const BT_PHY_EDR_3M_5SLOT: u32 = 0x00000100;
/// `BT_PHY_LE_1M_TX`.
pub const BT_PHY_LE_1M_TX: u32 = 0x00000200;
/// `BT_PHY_LE_1M_RX`.
pub const BT_PHY_LE_1M_RX: u32 = 0x00000400;
/// `BT_PHY_LE_2M_TX`.
pub const BT_PHY_LE_2M_TX: u32 = 0x00000800;
/// `BT_PHY_LE_2M_RX`.
pub const BT_PHY_LE_2M_RX: u32 = 0x00001000;
/// `BT_PHY_LE_CODED_TX`.
pub const BT_PHY_LE_CODED_TX: u32 = 0x00002000;
/// `BT_PHY_LE_CODED_RX`.
pub const BT_PHY_LE_CODED_RX: u32 = 0x00004000;
/// Every bit that names a flag of [`BluetoothPhy`].
pub const BT_PHY_ALL: u32 = 0x00007fff;

/// `BT_PHY_*`.
#[derive(Debug, Clone, Copy, PartialEq, Eq, Hash)]
pub struct BluetoothPhy(u32);

impl View for BluetoothPhy {
    type V = u32;

    closed spec fn view(&self) -> u32 {
        self.0
    }
}

impl BluetoothPhy {
    /// `all()` is exactly the union of every named flag.
    pub proof fn lemma_all_is_union_of_flags()
        ensures
            BT_PHY_ALL == BT_PHY_BR_1M_1SLOT
                | BT_PHY_BR_1M_3SLOT
                | BT_PHY_BR_1M_5SLOT
                | BT_PHY_EDR_2M_1SLOT
                | BT_PHY_EDR_2M_3SLOT
                | BT_PHY_EDR_2M_5SLOT
                | BT_PHY_EDR_3M_1SLOT
                | BT_PHY_EDR_3M_3SLOT
                | BT_PHY_EDR_3M_5SLOT
                | BT_PHY_LE_1M_TX
                | BT_PHY_LE_1M_RX
                | BT_PHY_LE_2M_TX
                | BT_PHY_LE_2M_RX
                | BT_PHY_LE_CODED_TX
                | BT_PHY_LE_CODED_RX,
    {
        assert(BT_PHY_ALL == BT_PHY_BR_1M_1SLOT
            | BT_PHY_BR_1M_3SLOT
            | BT_PHY_BR_1M_5SLOT
            | BT_PHY_EDR_2M_1SLOT
            | BT_PHY_EDR_2M_3SLOT
            | BT_PHY_EDR_2M_5SLOT
            | BT_PHY_EDR_3M_1SLOT
            | BT_PHY_EDR_3M_3SLOT
            | BT_PHY_EDR_3M_5SLOT
            | BT_PHY_LE_1M_TX
            | BT_PHY_LE_1M_RX
            | BT_PHY_LE_2M_TX
            | BT_PHY_LE_2M_RX
            | BT_PHY_LE_CODED_TX
            | BT_PHY_LE_CODED_RX
        ) by (bit_vector);
    }

    /// `BT_PHY_BR_1M_1SLOT`.
    pub fn br_1m_1slot() -> (r: Self)
        ensures
            r@ == BT_PHY_BR_1M_1SLOT,
    {
        BluetoothPhy(BT_PHY_BR_1M_1SLOT)
    }

    /// `BT_PHY_BR_1M_3SLOT`.
    pub fn br_1m_3slot() -> (r: Self)
        ensures
            r@ == BT_PHY_BR_1M_3SLOT,
    {
        BluetoothPhy(BT_PHY_BR_1M_3SLOT)
    }

    /// `BT_PHY_BR_1M_5SLOT`.
    pub fn br_1m_5slot() -> (r: Self)
        ensures
            r@ == BT_PHY_BR_1M_5SLOT,
    {
        BluetoothPhy(BT_PHY_BR_1M_5SLOT)
    }

    /// `BT_PHY_EDR_2M_1SLOT`.
    pub fn edr_2m_1slot() -> (r: Self)
        ensures
            r@ == BT_PHY_EDR_2M_1SLOT,
    {
        BluetoothPhy(BT_PHY_EDR_2M_1SLOT)
    }

    /// `BT_PHY_EDR_2M_3SLOT`.
    pub fn edr_2m_3slot() -> (r: Self)
        ensures
            r@ == BT_PHY_EDR_2M_3SLOT,
    {
        BluetoothPhy(BT_PHY_EDR_2M_3SLOT)
    }

    /// `BT_PHY_EDR_2M_5SLOT`.
    pub fn edr_2m_5slot() -> (r: Self)
        ensures
            r@ == BT_PHY_EDR_2M_5SLOT,
    {
        BluetoothPhy(BT_PHY_EDR_2M_5SLOT)
    }

    /// `BT_PHY_EDR_3M_1SLOT`.
    pub fn edr_3m_1slot() -> (r: Self)
        ensures
            r@ == BT_PHY_EDR_3M_1SLOT,
    {
        BluetoothPhy(BT_PHY_EDR_3M_1SLOT)
    }

    /// `BT_PHY_EDR_3M_3SLOT`.
    pub fn edr_3m_3slot() -> (r: Self)
        ensures
            r@ == BT_PHY_EDR_3M_3SLOT,
    {
        BluetoothPhy(BT_PHY_EDR_3M_3SLOT)
    }

    /// `BT_PHY_EDR_3M_5SLOT`.
    pub fn edr_3m_5slot() -> (r: Self)
        ensures
            r@ == BT_PHY_EDR_3M_5SLOT,
    {
        BluetoothPhy(BT_PHY_EDR_3M_5SLOT)
    }

    /// `BT_PHY_LE_1M_TX`.
    pub fn le_1m_tx() -> (r: Self)
        ensures
            r@ == BT_PHY_LE_1M_TX,
    {
        BluetoothPhy(BT_PHY_LE_1M_TX)
    }

    /// `BT_PHY_LE_1M_RX`.
    pub fn le_1m_rx() -> (r: Self)
        ensures
            r@ == BT_PHY_LE_1M_RX,
    {
        BluetoothPhy(BT_PHY_LE_1M_RX)
    }

    /// `BT_PHY_LE_2M_TX`.
    pub fn le_2m_tx() -> (r: Self)
        ensures
            r@ == BT_PHY_LE_2M_TX,
    {
        BluetoothPhy(BT_PHY_LE_2M_TX)
    }

    /// `BT_PHY_LE_2M_RX`.
    pub fn le_2m_rx() -> (r: Self)
        ensures
            r@ == BT_PHY_LE_2M_RX,
    {
        BluetoothPhy(BT_PHY_LE_2M_RX)
    }

    /// `BT_PHY_LE_CODED_TX`.
    pub fn le_coded_tx() -> (r: Self)
        ensures
            r@ == BT_PHY_LE_CODED_TX,
    {
        BluetoothPhy(BT_PHY_LE_CODED_TX)
    }

    /// `BT_PHY_LE_CODED_RX`.
    pub fn le_coded_rx() -> (r: Self)
        ensures
            r@ == BT_PHY_LE_CODED_RX,
    {
        BluetoothPhy(BT_PHY_LE_CODED_RX)
    }

    /// A flags value with all bits unset.
    pub fn empty() -> (r: Self)
        ensures
            r@ == 0,
    {
        BluetoothPhy(0)
    }

    /// A flags value with all known bits set.
    pub fn all() -> (r: Self)
        ensures
            r@ == BT_PHY_ALL,
    {
        BluetoothPhy(BT_PHY_ALL)
    }

    /// The underlying bits value.
    pub fn bits(&self) -> (r: u32)
        ensures
            r == self@,
    {
        self.0
    }

    /// The flags value of `bits`, or `None` if `bits` has a bit set that
    /// names no flag.
    pub fn from_bits(bits: u32) -> (r: Option<Self>)
        ensures
            r is Some <==> bits & BT_PHY_ALL == bits,
            r matches Some(f) ==> f@ == bits,
    {
        let truncated = Self::from_bits_truncate(bits).0;
        if truncated == bits {
            Some(BluetoothPhy(bits))
        } else {
            None
        }
    }

    /// The flags value of `bits`, without the bits that name no flag.
    pub fn from_bits_truncate(bits: u32) -> (r: Self)
        ensures
            r@ == bits & BT_PHY_ALL,
    {
        BluetoothPhy(bits & Self::all().0)
    }

    /// The flags value of `bits`, all bits kept.
    pub fn from_bits_retain(bits: u32) -> (r: Self)
        ensures
            r@ == bits,
    {
        BluetoothPhy(bits)
    }

    /// Whether all bits are unset.
    pub fn is_empty(&self) -> (r: bool)
        ensures
            r == (self@ == 0),
    {
        self.0 == 0
    }

    /// Whether all known bits are set.
    pub fn is_all(&self) -> (r: bool)
        ensures
            r == (BT_PHY_ALL | self@ == self@),
    {
        Self::all().0 | self.0 == self.0
    }

    /// Whether any bit set in `other` is also set in `self`.
    pub fn intersects(&self, other: Self) -> (r: bool)
        ensures
            r == (self@ & other@ != 0),
    {
        self.0 & other.0 != 0
    }

    /// Whether every bit set in `other` is also set in `self`.
    pub fn contains(&self, other: Self) -> (r: bool)
        ensures
            r == (self@ & other@ == other@),
    {
        self.0 & other.0 == other.0
    }

    /// Set the bits of `other`.
    pub fn insert(&mut self, other: Self)
        ensures
            final(self)@ == old(self)@ | other@,
    {
        *self = BluetoothPhy(self.0).union(other);
    }

    /// Unset the bits of `other`.
    pub fn remove(&mut self, other: Self)
        ensures
            final(self)@ == old(self)@ & !other@,
    {
        *self = BluetoothPhy(self.0).difference(other);
    }

    /// Flip the bits of `other`.
    pub fn toggle(&mut self, other: Self)
        ensures
            final(self)@ == old(self)@ ^ other@,
    {
        *self = BluetoothPhy(self.0).symmetric_difference(other);
    }

    /// Set the bits of `other` when `value` holds, unset them otherwise.
    pub fn set(&mut self, other: Self, value: bool)
        ensures
            final(self)@ == (if value {
                old(self)@ | other@
            } else {
                old(self)@ & !other@
            }),
    {
        if value {
            self.insert(other);
        } else {
            self.remove(other);
        }
    }

    /// The bits set in both `self` and `other`.
    pub fn intersection(self, other: Self) -> (r: Self)
        ensures
            r@ == self@ & other@,
    {
        BluetoothPhy(self.0 & other.0)
    }

    /// The bits set in either `self` or `other`.
    pub fn union(self, other: Self) -> (r: Self)
        ensures
            r@ == self@ | other@,
    {
        BluetoothPhy(self.0 | other.0)
    }

    /// The bits set in `self` and not in `other`.
    pub fn difference(self, other: Self) -> (r: Self)
        ensures
            r@ == self@ & !other@,
    {
        BluetoothPhy(self.0 & !other.0)
    }

    /// The bits set in exactly one of `self` and `other`.
    pub fn symmetric_difference(self, other: Self) -> (r: Self)
        ensures
            r@ == self@ ^ other@,
    {
        BluetoothPhy(self.0 ^ other.0)
    }

    /// The known bits not set in `self`.
    pub fn complement(self) -> (r: Self)
        ensures
            r@ == !self@ & BT_PHY_ALL,
    {
        Self::from_bits_truncate(!self.0)
    }

    /// Two flags values with the same bits are the same.
    pub proof fn lemma_view_eq(a: Self, b: Self)
        requires
            a@ == b@,
        ensures
            a == b,
    {
    }

    /// After `insert(other)` the value contains `other`; after
    /// `remove(other)` it has no bit in common with `other`; and `toggle`
    /// twice with the same `other` changes nothing.
    pub proof fn lemma_insert_remove_toggle(f: Self, other: Self)
        ensures
            (f@ | other@) & other@ == other@,
            (f@ & !other@) & other@ == 0,
            (f@ ^ other@) ^ other@ == f@,
    {
        lemma_bits_insert(f@, other@);
        lemma_bits_remove(f@, other@);
        lemma_bits_toggle(f@, other@);
    }

    /// The complement of the complement is the value without its unknown
    /// bits; the complement of the empty value is `all()` and that of
    /// `all()` is empty.
    pub proof fn lemma_complement(f: Self)
        ensures
            !(!f@ & BT_PHY_ALL) & BT_PHY_ALL == f@ & BT_PHY_ALL,
            !0u32 & BT_PHY_ALL == BT_PHY_ALL,
            !BT_PHY_ALL & BT_PHY_ALL == 0,
    {
        lemma_bits_complement(f@, BT_PHY_ALL);
        lemma_bits_complement_ends(BT_PHY_ALL);
    }

    /// For a value without unknown bits, `difference(other)` is the
    /// intersection with the complement of `other`.
    pub proof fn lemma_difference_is_intersection_with_complement(f: Self, other: Self)
        requires
            f@ & BT_PHY_ALL == f@,
        ensures
            f@ & !other@ == f@ & (!other@ & BT_PHY_ALL),
    {
        lemma_bits_difference(f@, other@, BT_PHY_ALL);
    }

    /// Two values that contain each other are equal; every value contains
    /// the empty value, which contains only itself.
    pub proof fn lemma_contains_order(a: Self, b: Self)
        ensures
            (a@ & b@ == b@ && b@ & a@ == a@) ==> a == b,
            a@ & 0 == 0,
            (0u32 & a@ == a@) <==> a@ == 0,
    {
        if a@ & b@ == b@ && b@ & a@ == a@ {
            lemma_bits_antisymmetric(a@, b@);
        }
        lemma_bits_empty(a@);
    }
}

/// `L2CAP_LM_MASTER`.
pub const L2CAP_LM_MASTER: u32 = 0x0001;
/// `L2CAP_LM_AUTH`.
pub const L2CAP_LM_AUTH: u32 = 0x0002;
/// `L2CAP_LM_ENCRYPT`.
pub const L2CAP_LM_ENCRYPT: u32 = 0x0004;
/// `L2CAP_LM_TRUSTED`.
pub const L2CAP_LM_TRUSTED: u32 = 0x0008;
/// `L2CAP_LM_RELIABLE`.
pub const L2CAP_LM_RELIABLE: u32 = 0x0010;
/// `L2CAP_LM_SECURE`.
pub const L2CAP_LM_SECURE: u32 = 0x0020;
/// `L2CAP_LM_FIPS`.
pub const L2CAP_LM_FIPS: u32 = 0x0040;
/// Every bit that names a flag of [`L2capLinkMode`].
pub const L2CAP_LM_ALL: u32 = 0x0000007f;

/// `L2CAP_LM_*`.
#[derive(Debug, Clone, Copy, PartialEq, Eq, Hash)]
pub struct L2capLinkMode(u32);

impl View for L2capLinkMode {
    type V = u32;

    closed spec fn view(&self) -> u32 {
        self.0
    }
}

impl L2capLinkMode {
    /// `all()` is exactly the union of every named flag.
    pub proof fn lemma_all_is_union_of_flags()
        ensures
            L2CAP_LM_ALL == L2CAP_LM_MASTER
                | L2CAP_LM_AUTH
                | L2CAP_LM_ENCRYPT
                | L2CAP_LM_TRUSTED
                | L2CAP_LM_RELIABLE
                | L2CAP_LM_SECURE
                | L2CAP_LM_FIPS,
    {
        assert(L2CAP_LM_ALL == L2CAP_LM_MASTER
            | L2CAP_LM_AUTH
            | L2CAP_LM_ENCRYPT
            | L2CAP_LM_TRUSTED
            | L2CAP_LM_RELIABLE
            | L2CAP_LM_SECURE
            | L2CAP_LM_FIPS
        ) by (bit_vector);
    }

    /// `L2CAP_LM_MASTER`.
    pub fn master() -> (r: Self)
        ensures
            r@ == L2CAP_LM_MASTER,
    {
        L2capLinkMode(L2CAP_LM_MASTER)
    }

    /// `L2CAP_LM_AUTH`.
    pub fn auth() -> (r: Self)
        ensures
            r@ == L2CAP_LM_AUTH,
    {
        L2capLinkMode(L2CAP_LM_AUTH)
    }

    /// `L2CAP_LM_ENCRYPT`.
    pub fn encrypt() -> (r: Self)
        ensures
            r@ == L2CAP_LM_ENCRYPT,
    {
        L2capLinkMode(L2CAP_LM_ENCRYPT)
    }

    /// `L2CAP_LM_TRUSTED`.
    pub fn trusted() -> (r: Self)
        ensures
            r@ == L2CAP_LM_TRUSTED,
    {
        L2capLinkMode(L2CAP_LM_TRUSTED)
    }

    /// `L2CAP_LM_RELIABLE`.
    pub fn reliable() -> (r: Self)
        ensures
            r@ == L2CAP_LM_RELIABLE,
    {
        L2capLinkMode(L2CAP_LM_RELIABLE)
    }

    /// `L2CAP_LM_SECURE`.
    pub fn secure() -> (r: Self)
        ensures
            r@ == L2CAP_LM_SECURE,
    {
        L2capLinkMode(L2CAP_LM_SECURE)
    }

    /// `L2CAP_LM_FIPS`.
    pub fn fips() -> (r: Self)
        ensures
            r@ == L2CAP_LM_FIPS,
    {
        L2capLinkMode(L2CAP_LM_FIPS)
    }

    /// A flags value with all bits unset.
    pub fn empty() -> (r: Self)
        ensures
            r@ == 0,
    {
        L2capLinkMode(0)
    }

    /// A flags value with all known bits set.
    pub fn all() -> (r: Self)
        ensures
            r@ == L2CAP_LM_ALL,
    {
        L2capLinkMode(L2CAP_LM_ALL)
    }

    /// The underlying bits value.
    pub fn bits(&self) -> (r: u32)
        ensures
            r == self@,
    {
        self.0
    }

    /// The flags value of `bits`, or `None` if `bits` has a bit set that
    /// names no flag.
    pub fn from_bits(bits: u32) -> (r: Option<Self>)
        ensures
            r is Some <==> bits & L2CAP_LM_ALL == bits,
            r matches Some(f) ==> f@ == bits,
    {
        let truncated = Self::from_bits_truncate(bits).0;
        if truncated == bits {
            Some(L2capLinkMode(bits))
        } else {
            None
        }
    }

    /// The flags value of `bits`, without the bits that name no flag.
    pub fn from_bits_truncate(bits: u32) -> (r: Self)
        ensures
            r@ == bits & L2CAP_LM_ALL,
    {
        L2capLinkMode(bits & Self::all().0)
    }

    /// The flags value of `bits`, all bits kept.
    pub fn from_bits_retain(bits: u32) -> (r: Self)
        ensures
            r@ == bits,
    {
        L2capLinkMode(bits)
    }

    /// Whether all bits are unset.
    pub fn is_empty(&self) -> (r: bool)
        ensures
            r == (self@ == 0),
    {
        self.0 == 0
    }

    /// Whether all known bits are set.
    pub fn is_all(&self) -> (r: bool)
        ensures
            r == (L2CAP_LM_ALL | self@ == self@),
    {
        Self::all().0 | self.0 == self.0
    }

    /// Whether any bit set in `other` is also set in `self`.
    pub fn intersects(&self, other: Self) -> (r: bool)
        ensures
            r == (self@ & other@ != 0),
    {
        self.0 & other.0 != 0
    }

    /// Whether every bit set in `other` is also set in `self`.
    pub fn contains(&self, other: Self) -> (r: bool)
        ensures
            r == (self@ & other@ == other@),
    {
        self.0 & other.0 == other.0
    }

    /// Set the bits of `other`.
    pub fn insert(&mut self, other: Self)
        ensures
            final(self)@ == old(self)@ | other@,
    {
        *self = L2capLinkMode(self.0).union(other);
    }

    /// Unset the bits of `other`.
    pub fn remove(&mut self, other: Self)
        ensures
            final(self)@ == old(self)@ & !other@,
    {
        *self = L2capLinkMode(self.0).difference(other);
    }

    /// Flip the bits of `other`.
    pub fn toggle(&mut self, other: Self)
        ensures
            final(self)@ == old(self)@ ^ other@,
    {
        *self = L2capLinkMode(self.0).symmetric_difference(other);
    }

    /// Set the bits of `other` when `value` holds, unset them otherwise.
    pub fn set(&mut self, other: Self, value: bool)
        ensures
            final(self)@ == (if value {
                old(self)@ | other@
            } else {
                old(self)@ & !other@
            }),
    {
        if value {
            self.insert(other);
        } else {
            self.remove(other);
        }
    }

    /// The bits set in both `self` and `other`.
    pub fn intersection(self, other: Self) -> (r: Self)
        ensures
            r@ == self@ & other@,
    {
        L2capLinkMode(self.0 & other.0)
    }

    /// The bits set in either `self` or `other`.
    pub fn union(self, other: Self) -> (r: Self)
        ensures
            r@ == self@ | other@,
    {
        L2capLinkMode(self.0 | other.0)
    }

    /// The bits set in `self` and not in `other`.
    pub fn difference(self, other: Self) -> (r: Self)
        ensures
            r@ == self@ & !other@,
    {
        L2capLinkMode(self.0 & !other.0)
    }

    /// The bits set in exactly one of `self` and `other`.
    pub fn symmetric_difference(self, other: Self) -> (r: Self)
        ensures
            r@ == self@ ^ other@,
    {
        L2capLinkMode(self.0 ^ other.0)
    }

    /// The known bits not set in `self`.
    pub fn complement(self) -> (r: Self)
        ensures
            r@ == !self@ & L2CAP_LM_ALL,
    {
        Self::from_bits_truncate(!self.0)
    }

    /// Two flags values with the same bits are the same.
    pub proof fn lemma_view_eq(a: Self, b: Self)
        requires
            a@ == b@,
        ensures
            a == b,
    {
    }

    /// After `insert(other)` the value contains `other`; after
    /// `remove(other)` it has no bit in common with `other`; and `toggle`
    /// twice with the same `other` changes nothing.
    pub proof fn lemma_insert_remove_toggle(f: Self, other: Self)
        ensures
            (f@ | other@) & other@ == other@,
            (f@ & !other@) & other@ == 0,
            (f@ ^ other@) ^ other@ == f@,
    {
        lemma_bits_insert(f@, other@);
        lemma_bits_remove(f@, other@);
        lemma_bits_toggle(f@, other@);
    }

    /// The complement of the complement is the value without its unknown
    /// bits; the complement of the empty value is `all()` and that of
    /// `all()` is empty.
    pub proof fn lemma_complement(f: Self)
        ensures
            !(!f@ & L2CAP_LM_ALL) & L2CAP_LM_ALL == f@ & L2CAP_LM_ALL,
            !0u32 & L2CAP_LM_ALL == L2CAP_LM_ALL,
            !L2CAP_LM_ALL & L2CAP_LM_ALL == 0,
    {
        lemma_bits_complement(f@, L2CAP_LM_ALL);
        lemma_bits_complement_ends(L2CAP_LM_ALL);
    }

    /// For a value without unknown bits, `difference(other)` is the
    /// intersection with the complement of `other`.
    pub proof fn lemma_difference_is_intersection_with_complement(f: Self, other: Self)
        requires
            f@ & L2CAP_LM_ALL == f@,
        ensures
            f@ & !other@ == f@ & (!other@ & L2CAP_LM_ALL),
    {
        lemma_bits_difference(f@, other@, L2CAP_LM_ALL);
    }

    /// Two values that contain each other are equal; every value contains
    /// the empty value, which contains only itself.
    pub proof fn lemma_contains_order(a: Self, b: Self)
        ensures
            (a@ & b@ == b@ && b@ & a@ == a@) ==> a == b,
            a@ & 0 == 0,
            (0u32 & a@ == a@) <==> a@ == 0,
    {
        if a@ & b@ == b@ && b@ & a@ == a@ {
            lemma_bits_antisymmetric(a@, b@);
        }
        lemma_bits_empty(a@);
    }
}

} // verus!
