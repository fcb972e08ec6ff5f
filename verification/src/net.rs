//! Internet addresses as plain values, and the ranges that an outbound
//! request must never reach.

use vstd::prelude::*;

verus! {

/// An IPv4 or IPv6 address: four octets, or eight sixteen-bit segments, in
/// network order.
#[derive(Debug, Clone, Copy)]
pub enum IpAddress {
    V4([u8; 4]),
    V6([u16; 8]),
}

/// 10.0.0.0/8, 172.16.0.0/12 or 192.168.0.0/16.
pub open spec fn ipv4_is_private(o: [u8; 4]) -> bool {
    ||| o[0] == 10
    ||| (o[0] == 172 && 16 <= o[1] && o[1] <= 31)
    ||| (o[0] == 192 && o[1] == 168)
}

/// 127.0.0.0/8.
pub open spec fn ipv4_is_loopback(o: [u8; 4]) -> bool {
    o[0] == 127
}

/// 169.254.0.0/16.
pub open spec fn ipv4_is_link_local(o: [u8; 4]) -> bool {
    o[0] == 169 && o[1] == 254
}

/// 255.255.255.255.
pub open spec fn ipv4_is_broadcast(o: [u8; 4]) -> bool {
    o[0] == 255 && o[1] == 255 && o[2] == 255 && o[3] == 255
}

/// 192.0.2.0/24, 198.51.100.0/24 or 203.0.113.0/24.
pub open spec fn ipv4_is_documentation(o: [u8; 4]) -> bool {
    ||| (o[0] == 192 && o[1] == 0 && o[2] == 2)
    ||| (o[0] == 198 && o[1] == 51 && o[2] == 100)
    ||| (o[0] == 203 && o[1] == 0 && o[2] == 113)
}

/// 0.0.0.0.
pub open spec fn ipv4_is_unspecified(o: [u8; 4]) -> bool {
    o[0] == 0 && o[1] == 0 && o[2] == 0 && o[3] == 0
}

/// 224.0.0.0/4.
pub open spec fn ipv4_is_multicast(o: [u8; 4]) -> bool {
    224 <= o[0] && o[0] <= 239
}

/// An IPv4 address that no external URL may name or resolve to.
pub open spec fn ipv4_is_blocked(o: [u8; 4]) -> bool {
    ||| ipv4_is_private(o)
    ||| ipv4_is_loopback(o)
    ||| ipv4_is_link_local(o)
    ||| ipv4_is_broadcast(o)
    ||| ipv4_is_documentation(o)
    ||| ipv4_is_unspecified(o)
    ||| ipv4_is_multicast(o)
}

/// The first seven segments are zero.
pub open spec fn ipv6_high_segments_zero(s: [u16; 8]) -> bool {
    s[0] == 0 && s[1] == 0 && s[2] == 0 && s[3] == 0 && s[4] == 0 && s[5] == 0 && s[6] == 0
}

/// ::1.
pub open spec fn ipv6_is_loopback(s: [u16; 8]) -> bool {
    ipv6_high_segments_zero(s) && s[7] == 1
}

/// ::.
pub open spec fn ipv6_is_unspecified(s: [u16; 8]) -> bool {
    ipv6_high_segments_zero(s) && s[7] == 0
}

/// fc00::/7.
pub open spec fn ipv6_is_unique_local(s: [u16; 8]) -> bool {
    0xfc00 <= s[0] && s[0] <= 0xfdff
}

/// fe80::/10.
pub open spec fn ipv6_is_unicast_link_local(s: [u16; 8]) -> bool {
    0xfe80 <= s[0] && s[0] <= 0xfebf
}

/// ff00::/8.
pub open spec fn ipv6_is_multicast(s: [u16; 8]) -> bool {
    s[0] >= 0xff00
}

/// An IPv6 address that no external URL may name or resolve to.
pub open spec fn ipv6_is_blocked(s: [u16; 8]) -> bool {
    ||| ipv6_is_loopback(s)
    ||| ipv6_is_unique_local(s)
    ||| ipv6_is_unicast_link_local(s)
    ||| ipv6_is_unspecified(s)
    ||| ipv6_is_multicast(s)
}

/// The ranges above are the prefixes that their names stand for: a segment
/// lies in fc00::/7, fe80::/10 or ff00::/8 exactly when its masked high bits
/// are those of the prefix.
pub proof fn lemma_ipv6_prefixes(first: u16)
    ensures
        (0xfc00 <= first && first <= 0xfdff) <==> (first & 0xfe00) == 0xfc00,
        (0xfe80 <= first && first <= 0xfebf) <==> (first & 0xffc0) == 0xfe80,
        (first >= 0xff00) <==> (first & 0xff00) == 0xff00,
{
    assert((0xfc00 <= first && first <= 0xfdff) <==> (first & 0xfe00) == 0xfc00) by (bit_vector);
    assert((0xfe80 <= first && first <= 0xfebf) <==> (first & 0xffc0) == 0xfe80) by (bit_vector);
    assert((first >= 0xff00) <==> (first & 0xff00) == 0xff00) by (bit_vector);
}

impl IpAddress {
    /// Private, loopback, link-local, broadcast, documentation, unspecified
    /// or multicast for IPv4; loopback, unique-local, link-local, unspecified
    /// or multicast for IPv6.
    pub open spec fn blocked(self) -> bool {
        match self {
            IpAddress::V4(o) => ipv4_is_blocked(o),
            IpAddress::V6(s) => ipv6_is_blocked(s),
        }
    }

    /// Whether this address lies in a range that outbound requests must not reach.
    pub fn is_blocked(&self) -> (b: bool)
        ensures
            b == self.blocked(),
    {
        match self {
            IpAddress::V4(o) => is_blocked_ipv4(o),
            IpAddress::V6(s) => is_blocked_ipv6(s),
        }
    }
}

/// Whether an IPv4 address, given by its octets, is blocked.
pub fn is_blocked_ipv4(o: &[u8; 4]) -> (b: bool)
    ensures
        b == ipv4_is_blocked(*o),
{
    let private = o[0] == 10 || (o[0] == 172 && 16 <= o[1] && o[1] <= 31) || (o[0] == 192 && o[1]
        == 168);
    let loopback = o[0] == 127;
    let link_local = o[0] == 169 && o[1] == 254;
    let broadcast = o[0] == 255 && o[1] == 255 && o[2] == 255 && o[3] == 255;
    let documentation = (o[0] == 192 && o[1] == 0 && o[2] == 2) || (o[0] == 198 && o[1] == 51
        && o[2] == 100) || (o[0] == 203 && o[1] == 0 && o[2] == 113);
    let unspecified = o[0] == 0 && o[1] == 0 && o[2] == 0 && o[3] == 0;
    let multicast = 224 <= o[0] && o[0] <= 239;
    private || loopback || link_local || broadcast || documentation || unspecified || multicast
}

/// Whether an IPv6 address, given by its segments, is blocked.
pub fn is_blocked_ipv6(s: &[u16; 8]) -> (b: bool)
    ensures
        b == ipv6_is_blocked(*s),
{
    let high_zero = s[0] == 0 && s[1] == 0 && s[2] == 0 && s[3] == 0 && s[4] == 0 && s[5] == 0
        && s[6] == 0;
    let loopback = high_zero && s[7] == 1;
    let unspecified = high_zero && s[7] == 0;
    let unique_local = 0xfc00 <= s[0] && s[0] <= 0xfdff;
    let link_local = 0xfe80 <= s[0] && s[0] <= 0xfebf;
    let multicast = s[0] >= 0xff00;
    loopback || unique_local || link_local || unspecified || multicast
}

/// Some address of `addrs` is blocked.
pub open spec fn any_blocked(addrs: Seq<IpAddress>) -> bool {
    exists|i: int| 0 <= i < addrs.len() && (#[trigger] addrs[i]).blocked()
}

/// Whether some address of `addrs` is blocked.
pub fn holds_blocked_address(addrs: &Vec<IpAddress>) -> (b: bool)
    ensures
        b == any_blocked(addrs@),
{
    let mut i: usize = 0;
    while i < addrs.len()
        invariant
            i <= addrs@.len(),
            forall|k: int| 0 <= k < i ==> !(#[trigger] addrs@[k]).blocked(),
        decreases addrs@.len() - i,
    {
        if addrs[i].is_blocked() {
            return true;
        }
        i += 1;
    }
    false
}

} // verus!
