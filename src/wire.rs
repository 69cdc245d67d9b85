//! Wire format of the outer headers: Ethernet, IPv6 and EtherIP.
use vstd::prelude::*;

verus! {

/// Length of an Ethernet header.
pub const ETH_HDR_LEN: usize = 14;

/// Length of a fixed IPv6 header.
pub const IPV6_HDR_LEN: usize = 40;

/// Length of the EtherIP header: a version byte and a reserved byte.
pub const ETHERIP_HDR_LEN: usize = 2;

/// Length of everything that precedes the inner frame.
pub const OUTER_LEN: usize = ETH_HDR_LEN + IPV6_HDR_LEN + ETHERIP_HDR_LEN;

/// Offset of the EtherIP header in an encapsulated frame.
pub const ETHERIP_OFFSET: usize = ETH_HDR_LEN + IPV6_HDR_LEN;

/// The EtherIP version byte (version 3 in the high nibble).
pub const ETHERIP_VERSION: u8 = 0x30;

/// IP protocol number of EtherIP.
pub const IPPROTO_ETHERIP: u8 = 97;

/// Hop limit written into the outer IPv6 header.
pub const HOP_LIMIT: u8 = 255;

/// Ethernet header: destination, source, then ethertype IPv6 (0x86dd).
pub open spec fn eth_header(src: Seq<u8>, dst: Seq<u8>) -> Seq<u8> {
    dst + src + seq![0x86u8, 0xddu8]
}

/// IPv6 header: version 6, zero traffic class and flow label, payload length
/// in network order, next header EtherIP, hop limit 255, then the addresses.
pub open spec fn ipv6_header(src: Seq<u8>, dst: Seq<u8>, payload_len: u16) -> Seq<u8> {
    seq![0x60u8, 0u8, 0u8, 0u8, (payload_len / 256) as u8, (payload_len % 256) as u8,
        IPPROTO_ETHERIP, HOP_LIMIT] + src + dst
}

/// EtherIP header: version byte then reserved byte.
pub open spec fn etherip_header() -> Seq<u8> {
    seq![ETHERIP_VERSION, 0u8]
}

/// The full outer header sequence prepended to an inner frame.
pub open spec fn outer_header(
    src_mac: Seq<u8>,
    dst_mac: Seq<u8>,
    src_ip: Seq<u8>,
    dst_ip: Seq<u8>,
    payload_len: u16,
) -> Seq<u8> {
    eth_header(src_mac, dst_mac) + ipv6_header(src_ip, dst_ip, payload_len) + etherip_header()
}

/// The IPv6 payload length of an encapsulated frame whose inner frame has
/// `inner_len` bytes: the inner frame plus the EtherIP header, in 16 bits.
pub open spec fn payload_len_of(inner_len: nat) -> u16 {
    ((inner_len + ETHERIP_HDR_LEN) % 0x10000) as u16
}

/// Whether a view of `size` bytes at `offset` lies inside a buffer of `len` bytes.
pub open spec fn in_bounds(len: nat, offset: nat, size: nat) -> bool {
    offset + size <= len
}

/// Checked view request: succeeds exactly when the view lies inside the buffer.
pub fn check_view(len: usize, offset: usize, size: usize) -> (r: bool)
    ensures
        r == in_bounds(len as nat, offset as nat, size as nat),
{
    offset <= len && size <= len - offset
}

/// Appends every byte of `a` to `v`.
pub fn push_all<const N: usize>(v: &mut Vec<u8>, a: &[u8; N])
    ensures
        final(v)@ == old(v)@ + a@,
{
    broadcast use vstd::array::group_array_axioms;
    let ghost start = v@;
    let mut i: usize = 0;
    while i < N
        invariant
            0 <= i <= N,
            a@.len() == N,
            v@ == start + a@.subrange(0, i as int),
        decreases N - i,
    {
        v.push(a[i]);
        i = i + 1;
        assert(v@ =~= start + a@.subrange(0, i as int));
    }
    assert(a@.subrange(0, N as int) =~= a@);
}

} // verus!
