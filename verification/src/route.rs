//! Capture routes: the routing-table entries that divert traffic into the
//! virtual interface, and the sets of them that the controller installs.

use vstd::prelude::*;
use crate::addr::Ipv4Address;

verus! {

/// Where a capture route sends matching traffic.
#[derive(Clone, Copy, Debug, PartialEq, Eq, Structural)]
pub enum RouteTarget {
    /// The interface with this index.
    Interface(u32),
    /// The gateway at this address.
    Gateway(Ipv4Address),
}

/// One routing-table entry: a destination prefix and its target.
#[derive(Clone, Copy, Debug, PartialEq, Eq, Structural)]
pub struct CapturedRoute {
    pub destination: Ipv4Address,
    pub prefix_len: u8,
    pub target: RouteTarget,
}

/// How the capture set is laid out.
#[derive(Clone, Copy, Debug, PartialEq, Eq, Structural)]
pub enum CaptureStrategy {
    /// Two `/1` prefixes that halve the whole address space.
    HalfPair,
    /// Eight nested prefixes from `1.0.0.0/8` up to `128.0.0.0/1`, for hosts
    /// on which a bound socket would be caught again by a `/1` pair.
    Ladder,
    /// No capture route at all.
    Disabled,
}

/// Whether `addr` and `dest` agree on their leading `prefix_len` bits.
pub open spec fn prefix_matches(dest: u32, prefix_len: u8, addr: u32) -> bool {
    prefix_len == 0 || (prefix_len <= 32 && (addr >> ((32 - prefix_len) as u32)) == (dest >> ((32
        - prefix_len) as u32)))
}

/// Whether `dest` has no bit set below its leading `prefix_len` bits.
pub open spec fn prefix_aligned(dest: u32, prefix_len: u8) -> bool {
    if prefix_len == 0 {
        dest == 0
    } else {
        prefix_len <= 32 && ((dest >> ((32 - prefix_len) as u32)) << ((32 - prefix_len) as u32))
            == dest
    }
}

/// The lowest address of rung `k` of the ladder: `1.0.0.0` doubled `k` times.
pub open spec fn rung_base(k: int) -> u32 {
    1u32 << ((24 + k) as u32)
}

/// Rung `k` of the ladder: `rung_base(k)` with a prefix of `8 - k` bits.
pub open spec fn ladder_rung(k: int, target: RouteTarget) -> CapturedRoute {
    CapturedRoute {
        destination: Ipv4Address { bits: rung_base(k) },
        prefix_len: (8 - k) as u8,
        target,
    }
}

/// The routes of a strategy, in the order in which they are installed.
pub open spec fn capture_set_spec(strategy: CaptureStrategy, target: RouteTarget) -> Seq<
    CapturedRoute,
> {
    match strategy {
        CaptureStrategy::HalfPair => seq![
            CapturedRoute { destination: Ipv4Address { bits: 0 }, prefix_len: 1, target },
            CapturedRoute { destination: Ipv4Address { bits: 0x8000_0000 }, prefix_len: 1, target },
        ],
        CaptureStrategy::Ladder => Seq::new(8, |k: int| ladder_rung(k, target)),
        CaptureStrategy::Disabled => Seq::empty(),
    }
}

/// Whether some route of `routes` covers `addr`.
pub open spec fn captured(routes: Seq<CapturedRoute>, addr: Ipv4Address) -> bool {
    exists|i: int| 0 <= i < routes.len() && (#[trigger] routes[i]).covers_spec(addr)
}

impl CapturedRoute {
    /// Whether the route's prefix contains `addr`.
    pub open spec fn covers_spec(self, addr: Ipv4Address) -> bool {
        prefix_matches(self.destination.bits, self.prefix_len, addr.bits)
    }

    /// A route is well formed when its prefix has at most 32 bits and its
    /// destination is the lowest address of that prefix.
    pub open spec fn wf(self) -> bool {
        self.prefix_len <= 32 && prefix_aligned(self.destination.bits, self.prefix_len)
    }

    /// Tells whether the route is well formed.
    pub fn is_well_formed(&self) -> (r: bool)
        ensures
            r == self.wf(),
    {
        if self.prefix_len == 0 {
            self.destination.bits == 0
        } else if self.prefix_len > 32 {
            false
        } else {
            let shift: u32 = 32 - self.prefix_len as u32;
            let bits: u32 = self.destination.bits;
            ((bits >> shift) << shift) == bits
        }
    }

    /// Tells whether the route's prefix contains `addr`.
    pub fn covers(&self, addr: Ipv4Address) -> (r: bool)
        ensures
            r == self.covers_spec(addr),
    {
        if self.prefix_len == 0 {
            true
        } else if self.prefix_len > 32 {
            false
        } else {
            let shift: u32 = 32 - self.prefix_len as u32;
            (addr.bits >> shift) == (self.destination.bits >> shift)
        }
    }
}

/// Builds the capture set of `strategy`, every route aimed at `target`.
pub fn capture_set(strategy: CaptureStrategy, target: RouteTarget) -> (routes: Vec<CapturedRoute>)
    ensures
        routes@ == capture_set_spec(strategy, target),
{
    let mut routes: Vec<CapturedRoute> = Vec::new();
    match strategy {
        CaptureStrategy::HalfPair => {
            routes.push(
                CapturedRoute { destination: Ipv4Address { bits: 0 }, prefix_len: 1, target },
            );
            routes.push(
                CapturedRoute {
                    destination: Ipv4Address { bits: 0x8000_0000 },
                    prefix_len: 1,
                    target,
                },
            );
        },
        CaptureStrategy::Ladder => {
            let mut k: u32 = 0;
            while k < 8
                invariant
                    k <= 8,
                    routes@.len() == k,
                    forall|j: int| 0 <= j < k ==> routes@[j] == ladder_rung(j, target),
                decreases 8 - k,
            {
                let base: u32 = 1u32 << (24 + k);
                let prefix_len: u8 = (8 - k) as u8;
                routes.push(
                    CapturedRoute { destination: Ipv4Address { bits: base }, prefix_len, target },
                );
                k = k + 1;
            }
        },
        CaptureStrategy::Disabled => {},
    }
    routes
}

/// Tells whether some route of `routes` covers `addr`.
pub fn is_captured(routes: &Vec<CapturedRoute>, addr: Ipv4Address) -> (r: bool)
    ensures
        r == captured(routes@, addr),
{
    let mut i: usize = 0;
    while i < routes.len()
        invariant
            i <= routes.len(),
            forall|j: int| 0 <= j < i ==> !(#[trigger] routes@[j]).covers_spec(addr),
        decreases routes.len() - i,
    {
        if routes[i].covers(addr) {
            return true;
        }
        i = i + 1;
    }
    false
}

/// Every route of every strategy is well formed.
pub proof fn lemma_capture_set_wf(strategy: CaptureStrategy, target: RouteTarget, i: int)
    requires
        0 <= i < capture_set_spec(strategy, target).len(),
    ensures
        capture_set_spec(strategy, target)[i].wf(),
{
    match strategy {
        CaptureStrategy::HalfPair => {
            assert(((0x8000_0000u32 >> 31u32) << 31u32) == 0x8000_0000u32) by (bit_vector);
            assert(((0u32 >> 31u32) << 31u32) == 0u32) by (bit_vector);
        },
        CaptureStrategy::Ladder => {
            let s: u32 = (24 + i) as u32;
            assert(24 <= s < 32 ==> (((1u32 << s) >> s) << s) == (1u32 << s)) by (bit_vector);
        },
        CaptureStrategy::Disabled => {},
    }
}

/// The half pair splits the address space in two: every address is covered
/// by exactly one of its routes, the lower half by the first.
pub proof fn lemma_half_pair_partition(target: RouteTarget, addr: Ipv4Address)
    ensures
        capture_set_spec(CaptureStrategy::HalfPair, target)[0].covers_spec(addr) <==> addr.bits
            < 0x8000_0000,
        capture_set_spec(CaptureStrategy::HalfPair, target)[1].covers_spec(addr) <==> addr.bits
            >= 0x8000_0000,
        captured(capture_set_spec(CaptureStrategy::HalfPair, target), addr),
{
    let a: u32 = addr.bits;
    assert((a >> 31u32) == (0u32 >> 31u32) <==> a < 0x8000_0000u32) by (bit_vector);
    assert((a >> 31u32) == (0x8000_0000u32 >> 31u32) <==> a >= 0x8000_0000u32) by (bit_vector);
}

/// Rung `k` of the ladder covers exactly the addresses from its base up to,
/// but not including, twice its base.
pub proof fn lemma_ladder_rung_range(target: RouteTarget, k: int, addr: Ipv4Address)
    requires
        0 <= k < 8,
    ensures
        ladder_rung(k, target).covers_spec(addr) <==> (rung_base(k) <= addr.bits && (addr.bits as int)
            < 2 * (rung_base(k) as int)),
        2 * (rung_base(k) as int) <= 0x1_0000_0000,
        rung_base(k) >= 0x0100_0000,
{
    let a: u32 = addr.bits;
    let s: u32 = (24 + k) as u32;
    let b: u32 = 1u32 << s;
    assert(24 <= s < 32 ==> ((a >> s) == ((1u32 << s) >> s) <==> ((1u32 << s) <= a && (a >> 1u32) < (
        1u32 << s)))) by (bit_vector);
    assert((a >> 1u32) == a / 2) by (bit_vector);
    assert(24 <= s < 32 ==> (1u32 << s) >= 0x0100_0000u32 && (1u32 << s) <= 0x8000_0000u32)
        by (bit_vector);
}

/// The ladder covers every address from `1.0.0.0` upwards by exactly one
/// rung, and no address below `1.0.0.0`.
pub proof fn lemma_ladder_partition(target: RouteTarget, addr: Ipv4Address)
    ensures
        captured(capture_set_spec(CaptureStrategy::Ladder, target), addr) <==> addr.bits
            >= 0x0100_0000,
        forall|j: int, k: int|
            0 <= j < 8 && 0 <= k < 8 && ladder_rung(j, target).covers_spec(addr) && ladder_rung(
                k,
                target,
            ).covers_spec(addr) ==> j == k,
{
    let s = capture_set_spec(CaptureStrategy::Ladder, target);
    let a: u32 = addr.bits;
    lemma_ladder_rung_range(target, 0, addr);
    lemma_ladder_rung_range(target, 1, addr);
    lemma_ladder_rung_range(target, 2, addr);
    lemma_ladder_rung_range(target, 3, addr);
    lemma_ladder_rung_range(target, 4, addr);
    lemma_ladder_rung_range(target, 5, addr);
    lemma_ladder_rung_range(target, 6, addr);
    lemma_ladder_rung_range(target, 7, addr);
    assert(rung_base(0) == 0x0100_0000u32) by (bit_vector);
    assert(rung_base(1) == 0x0200_0000u32) by (bit_vector);
    assert(rung_base(2) == 0x0400_0000u32) by (bit_vector);
    assert(rung_base(3) == 0x0800_0000u32) by (bit_vector);
    assert(rung_base(4) == 0x1000_0000u32) by (bit_vector);
    assert(rung_base(5) == 0x2000_0000u32) by (bit_vector);
    assert(rung_base(6) == 0x4000_0000u32) by (bit_vector);
    assert(rung_base(7) == 0x8000_0000u32) by (bit_vector);
    if a >= 0x0100_0000 {
        let k: int = if a < 0x0200_0000 {
            0
        } else if a < 0x0400_0000 {
            1
        } else if a < 0x0800_0000 {
            2
        } else if a < 0x1000_0000 {
            3
        } else if a < 0x2000_0000 {
            4
        } else if a < 0x4000_0000 {
            5
        } else if a < 0x8000_0000 {
            6
        } else {
            7
        };
        assert(s[k].covers_spec(addr));
    } else {
        assert forall|i: int| 0 <= i < s.len() implies !(#[trigger] s[i]).covers_spec(addr) by {}
    }
}

} // verus!
