//! Byte order of multi-byte integers in kernel structures.

use vstd::arithmetic::div_mod::lemma_fundamental_div_mod_converse;
use vstd::prelude::*;

verus! {

/// The order in which the bytes of a multi-byte integer are laid out.
#[derive(Debug, Clone, Copy, PartialEq, Eq, Structural)]
pub enum ByteOrder {
    /// Least significant byte first.
    Little,
    /// Most significant byte first.
    Big,
}

impl ByteOrder {
    /// The byte order that the probe value `probe` reveals.
    pub open spec fn from_probe_spec(probe: u16) -> ByteOrder {
        if probe == 1 {
            ByteOrder::Little
        } else {
            ByteOrder::Big
        }
    }

    /// The byte order revealed by `probe`, the bytes `[1, 0]` read as a
    /// native `u16`: `1` on a little-endian machine, `256` on a big-endian one.
    pub fn from_probe(probe: u16) -> (r: ByteOrder)
        ensures
            r == (if probe == 1 { ByteOrder::Little } else { ByteOrder::Big }),
    {
        if probe == 1 {
            ByteOrder::Little
        } else {
            ByteOrder::Big
        }
    }

    /// The byte order of the machine this code runs on, the order in which
    /// the kernel lays out the host-order fields of its structures.
    pub fn host() -> (r: ByteOrder)
        ensures
            r == host_order(),
    {
        let probe = u16_from_ne_bytes([1u8, 0u8]);
        ByteOrder::from_probe(probe)
    }
}

/// The byte order of the machine this code runs on (vstd's abstraction of
/// the executing hardware's endianness): the order in which `to_ne_bytes`
/// writes and `from_ne_bytes` reads, and in which the kernel lays out the
/// host-order fields of its structures.
pub open spec fn host_order() -> ByteOrder {
    match vstd::endian::endianness() {
        vstd::endian::Endian::Little => ByteOrder::Little,
        vstd::endian::Endian::Big => ByteOrder::Big,
    }
}

/// The host order is the order a native read of `[1, 0]` reveals: native
/// reads and writes of the host order agree, so bytes written in the host
/// order read back, natively, as the value written.
pub proof fn lemma_host_order_is_native(x: u16)
    ensures
        ByteOrder::from_probe_spec(u16_value(host_order(), 1, 0)) == host_order(),
        u16_value(host_order(), u16_bytes(host_order(), x)[0], u16_bytes(host_order(), x)[1]) == x,
{
    lemma_u16_roundtrip(host_order(), x);
}

/// Calls `u16::from_ne_bytes`, which reads two bytes in the native byte
/// order of the machine. Its documentation knows little- and big-endian
/// machines only, so the result is one of the two readings; the contract says
/// it is the reading in `host_order()`, vstd's abstraction of the executing
/// hardware's endianness. Which order that is, is left unsaid.
#[verifier::external_body]
fn u16_from_ne_bytes(b: [u8; 2]) -> (r: u16)
    ensures
        r == u16_value(ByteOrder::Little, b@[0], b@[1]) || r == u16_value(
            ByteOrder::Big,
            b@[0],
            b@[1],
        ),
        r == u16_value(host_order(), b@[0], b@[1]),
{
    u16::from_ne_bytes(b)
}

/// The two bytes of `x` in order `o`.
pub open spec fn u16_bytes(o: ByteOrder, x: u16) -> Seq<u8> {
    let lo = (x % 256) as u8;
    let hi = (x / 256) as u8;
    match o {
        ByteOrder::Little => seq![lo, hi],
        ByteOrder::Big => seq![hi, lo],
    }
}

/// The value of the two bytes `b0, b1` (in memory order) read in order `o`.
pub open spec fn u16_value(o: ByteOrder, b0: u8, b1: u8) -> u16 {
    match o {
        ByteOrder::Little => (b0 + 256 * b1) as u16,
        ByteOrder::Big => (b1 + 256 * b0) as u16,
    }
}

/// The four bytes of `x` in order `o`.
pub open spec fn u32_bytes(o: ByteOrder, x: u32) -> Seq<u8> {
    let d0 = (x % 256) as u8;
    let d1 = ((x / 256) % 256) as u8;
    let d2 = ((x / 65536) % 256) as u8;
    let d3 = (x / 16777216) as u8;
    match o {
        ByteOrder::Little => seq![d0, d1, d2, d3],
        ByteOrder::Big => seq![d3, d2, d1, d0],
    }
}

/// The value of the four bytes `b0 .. b3` (in memory order) read in order `o`.
pub open spec fn u32_value(o: ByteOrder, b0: u8, b1: u8, b2: u8, b3: u8) -> u32 {
    match o {
        ByteOrder::Little => (b0 + 256 * b1 + 65536 * b2 + 16777216 * b3) as u32,
        ByteOrder::Big => (b3 + 256 * b2 + 65536 * b1 + 16777216 * b0) as u32,
    }
}

/// Reading back the bytes of a `u16` gives the `u16`.
pub proof fn lemma_u16_roundtrip(o: ByteOrder, x: u16)
    ensures
        u16_bytes(o, x).len() == 2,
        u16_value(o, u16_bytes(o, x)[0], u16_bytes(o, x)[1]) == x,
{
}

/// Writing out the value of two bytes gives the same two bytes.
pub proof fn lemma_u16_bytes_of_value(o: ByteOrder, b0: u8, b1: u8)
    ensures
        u16_bytes(o, u16_value(o, b0, b1)) == seq![b0, b1],
{
    assert(u16_bytes(o, u16_value(o, b0, b1)) =~= seq![b0, b1]);
}

/// Reading back the bytes of a `u32` gives the `u32`.
pub proof fn lemma_u32_roundtrip(o: ByteOrder, x: u32)
    ensures
        u32_bytes(o, x).len() == 4,
        u32_value(o, u32_bytes(o, x)[0], u32_bytes(o, x)[1], u32_bytes(o, x)[2], u32_bytes(o, x)[3])
            == x,
{
    let q1 = x / 256;
    let q2 = x / 65536;
    let q3 = x / 16777216;
    assert(q2 == q1 / 256);
    assert(q3 == q2 / 256);
}

/// Writing out the value of four bytes gives the same four bytes.
pub proof fn lemma_u32_bytes_of_value(o: ByteOrder, b0: u8, b1: u8, b2: u8, b3: u8)
    ensures
        u32_bytes(o, u32_value(o, b0, b1, b2, b3)) == seq![b0, b1, b2, b3],
{
    let (l0, l1, l2, l3) = match o {
        ByteOrder::Little => (b0, b1, b2, b3),
        ByteOrder::Big => (b3, b2, b1, b0),
    };
    let v: int = l0 + 256 * l1 + 65536 * l2 + 16777216 * l3;
    assert(u32_value(o, b0, b1, b2, b3) == v);
    let w1: int = l1 + 256 * l2 + 65536 * l3;
    let w2: int = l2 + 256 * l3;
    lemma_fundamental_div_mod_converse(v, 256, w1, l0 as int);
    lemma_fundamental_div_mod_converse(w1, 256, w2, l1 as int);
    lemma_fundamental_div_mod_converse(w2, 256, l3 as int, l2 as int);
    lemma_fundamental_div_mod_converse(v, 65536, w2, l0 + 256 * l1);
    lemma_fundamental_div_mod_converse(v, 16777216, l3 as int, l0 + 256 * l1 + 65536 * l2);
    assert(u32_bytes(o, u32_value(o, b0, b1, b2, b3)) =~= seq![b0, b1, b2, b3]);
}

/// The two bytes of `x` in order `o`.
pub fn u16_to_bytes(o: ByteOrder, x: u16) -> (r: [u8; 2])
    ensures
        r@ == u16_bytes(o, x),
{
    let lo = (x % 256) as u8;
    let hi = (x / 256) as u8;
    let r = match o {
        ByteOrder::Little => [lo, hi],
        ByteOrder::Big => [hi, lo],
    };
    assert(r@ =~= u16_bytes(o, x));
    r
}

/// The value of the bytes `b0, b1` read in order `o`.
pub fn u16_from_bytes(o: ByteOrder, b0: u8, b1: u8) -> (r: u16)
    ensures
        r == u16_value(o, b0, b1),
{
    match o {
        ByteOrder::Little => b0 as u16 + 256 * (b1 as u16),
        ByteOrder::Big => b1 as u16 + 256 * (b0 as u16),
    }
}

/// The four bytes of `x` in order `o`.
pub fn u32_to_bytes(o: ByteOrder, x: u32) -> (r: [u8; 4])
    ensures
        r@ == u32_bytes(o, x),
{
    let d0 = (x % 256) as u8;
    let d1 = ((x / 256) % 256) as u8;
    let d2 = ((x / 65536) % 256) as u8;
    let d3 = (x / 16777216) as u8;
    let r = match o {
        ByteOrder::Little => [d0, d1, d2, d3],
        ByteOrder::Big => [d3, d2, d1, d0],
    };
    assert(r@ =~= u32_bytes(o, x));
    r
}

/// The value of the bytes `b0 .. b3` read in order `o`.
pub fn u32_from_bytes(o: ByteOrder, b0: u8, b1: u8, b2: u8, b3: u8) -> (r: u32)
    ensures
        r == u32_value(o, b0, b1, b2, b3),
{
    match o {
        ByteOrder::Little => b0 as u32 + 256 * (b1 as u32) + 65536 * (b2 as u32) + 16777216 * (b3 as u32),
        ByteOrder::Big => b3 as u32 + 256 * (b2 as u32) + 65536 * (b1 as u32) + 16777216 * (b0 as u32),
    }
}

} // verus!
