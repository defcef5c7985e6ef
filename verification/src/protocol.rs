//! Bluetooth socket protocols.

use vstd::prelude::*;

verus! {

/// `BTPROTO_L2CAP`.
pub const BTPROTO_L2CAP: u32 = 0;
/// `BTPROTO_HCI`.
pub const BTPROTO_HCI: u32 = 1;
/// `BTPROTO_SCO`.
pub const BTPROTO_SCO: u32 = 2;
/// `BTPROTO_RFCOMM`.
pub const BTPROTO_RFCOMM: u32 = 3;
/// `BTPROTO_BNEP`.
pub const BTPROTO_BNEP: u32 = 4;
/// `BTPROTO_CMTP`.
pub const BTPROTO_CMTP: u32 = 5;
/// `BTPROTO_HIDP`.
pub const BTPROTO_HIDP: u32 = 6;
/// `BTPROTO_AVDTP`.
pub const BTPROTO_AVDTP: u32 = 7;

/// A socket protocol number. Protocol zero is represented by the absence of
/// a `Protocol` (`None`), so a `Protocol` is never zero.
#[derive(Debug, Clone, Copy, PartialEq, Eq, Hash)]
pub struct Protocol {
    raw: u32,
}

impl View for Protocol {
    type V = u32;

    closed spec fn view(&self) -> u32 {
        self.raw
    }
}

impl Protocol {
    #[verifier::type_invariant]
    spec fn nonzero(self) -> bool {
        self.raw != 0
    }

    /// The protocol numbered `raw`, or `None` for protocol zero.
    pub fn new(raw: u32) -> (r: Option<Protocol>)
        ensures
            raw == 0 <==> r is None,
            r matches Some(p) ==> p@ == raw,
    {
        if raw == 0 {
            None
        } else {
            Some(Protocol { raw })
        }
    }

    /// The protocol number, which is never zero.
    pub fn as_raw(self) -> (r: u32)
        ensures
            r == self@,
            r != 0,
    {
        proof {
            use_type_invariant(&self);
        }
        self.raw
    }
}

/// The protocol numbered `u`, which must not be zero.
pub fn new_raw_protocol(u: u32) -> (r: Protocol)
    requires
        u != 0,
    ensures
        r@ == u,
{
    Protocol { raw: u }
}

/// `BTPROTO_L2CAP`. Linux numbers it zero, and protocol zero is `None`.
pub fn l2cap() -> (r: Option<Protocol>)
    ensures
        r is None,
{
    None
}

/// `BTPROTO_HCI`.
pub fn hci() -> (r: Option<Protocol>)
    ensures
        r matches Some(p) && p@ == BTPROTO_HCI,
{
    Some(new_raw_protocol(BTPROTO_HCI))
}

/// `BTPROTO_SCO`.
pub fn sco() -> (r: Option<Protocol>)
    ensures
        r matches Some(p) && p@ == BTPROTO_SCO,
{
    Some(new_raw_protocol(BTPROTO_SCO))
}

/// `BTPROTO_RFCOMM`.
pub fn rfcomm() -> (r: Option<Protocol>)
    ensures
        r matches Some(p) && p@ == BTPROTO_RFCOMM,
{
    Some(new_raw_protocol(BTPROTO_RFCOMM))
}

/// `BTPROTO_BNEP`.
pub fn bnep() -> (r: Option<Protocol>)
    ensures
        r matches Some(p) && p@ == BTPROTO_BNEP,
{
    Some(new_raw_protocol(BTPROTO_BNEP))
}

/// `BTPROTO_CMTP`.
pub fn cmtp() -> (r: Option<Protocol>)
    ensures
        r matches Some(p) && p@ == BTPROTO_CMTP,
{
    Some(new_raw_protocol(BTPROTO_CMTP))
}

/// `BTPROTO_HIDP`.
pub fn hidp() -> (r: Option<Protocol>)
    ensures
        r matches Some(p) && p@ == BTPROTO_HIDP,
{
    Some(new_raw_protocol(BTPROTO_HIDP))
}

/// `BTPROTO_AVDTP`.
pub fn avdtp() -> (r: Option<Protocol>)
    ensures
        r matches Some(p) && p@ == BTPROTO_AVDTP,
{
    Some(new_raw_protocol(BTPROTO_AVDTP))
}

} // verus!
