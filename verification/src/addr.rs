//! IPv4 addresses and socket addresses as plain values.

use vstd::prelude::*;

verus! {

/// The number that four octets denote when read in network order.
pub open spec fn octets_value(a: u8, b: u8, c: u8, d: u8) -> int {
    a as int * 16777216 + b as int * 65536 + c as int * 256 + d as int
}

/// The four octets of a 32-bit number, most significant first.
pub open spec fn value_octets(bits: u32) -> Seq<u8> {
    seq![
        (bits as int / 16777216) as u8,
        (bits as int / 65536 % 256) as u8,
        (bits as int / 256 % 256) as u8,
        (bits as int % 256) as u8,
    ]
}

/// An IPv4 address, held as the 32-bit number of its octets in network order.
#[derive(Clone, Copy, Debug, PartialEq, Eq, Structural)]
pub struct Ipv4Address {
    pub bits: u32,
}

impl Ipv4Address {
    /// The address `a.b.c.d`.
    pub fn from_octets(a: u8, b: u8, c: u8, d: u8) -> (r: Self)
        ensures
            r.bits == octets_value(a, b, c, d),
    {
        let hi: u32 = a as u32 * 16777216 + b as u32 * 65536;
        let lo: u32 = c as u32 * 256 + d as u32;
        Ipv4Address { bits: hi + lo }
    }

    /// The octets of the address, most significant first.
    pub fn octets(&self) -> (r: [u8; 4])
        ensures
            r@ == value_octets(self.bits),
    {
        let bits: u32 = self.bits;
        let r: [u8; 4] = [
            (bits / 16777216) as u8,
            (bits / 65536 % 256) as u8,
            (bits / 256 % 256) as u8,
            (bits % 256) as u8,
        ];
        assert(r@ =~= value_octets(self.bits));
        r
    }
}

/// Octets read as a number and written out again are the same octets.
pub proof fn lemma_octets_round_trip(a: u8, b: u8, c: u8, d: u8)
    ensures
        0 <= octets_value(a, b, c, d) <= u32::MAX,
        value_octets(octets_value(a, b, c, d) as u32) == seq![a, b, c, d],
{
    let v = octets_value(a, b, c, d);
    assert(v / 16777216 == a as int);
    assert(v / 256 % 256 == c as int);
}

/// A number written out as octets and read again is the same number.
pub proof fn lemma_value_round_trip(bits: u32)
    ensures
        octets_value(
            value_octets(bits)[0],
            value_octets(bits)[1],
            value_octets(bits)[2],
            value_octets(bits)[3],
        ) == bits,
{
}

/// An IPv4 address with a port.
#[derive(Clone, Copy, Debug, PartialEq, Eq, Structural)]
pub struct SocketAddress {
    pub ip: Ipv4Address,
    pub port: u16,
}

/// The identity of one forwarded flow: where it came from on the capture
/// side and where the application meant it to go.
#[derive(Clone, Copy, Debug, PartialEq, Eq, Structural)]
pub struct FlowId {
    pub local: SocketAddress,
    pub peer: SocketAddress,
}

} // verus!
