//! The two per-packet transforms: encapsulation on the LAN side and
//! decapsulation on the WAN side.
use crate::packet::Packet;
use crate::tables::{Port, Tables, Target};
use crate::wire::{
    check_view, outer_header, payload_len_of, push_all, ETHERIP_HDR_LEN, ETHERIP_OFFSET,
    ETHERIP_VERSION, ETH_HDR_LEN, HOP_LIMIT, IPPROTO_ETHERIP, OUTER_LEN,
};
use vstd::prelude::*;

verus! {

/// Outcome of one invocation of a transform.
#[derive(Clone, Copy, Debug, PartialEq, Eq, Structural)]
pub enum Action {
    /// Hand the frame, unmodified, to default processing.
    Pass,
    /// A bounds check failed where it could not: discard the frame.
    Aborted,
    /// No forwarding target is configured: discard the frame.
    Drop,
    /// Send the frame out of the given interface.
    Redirect(Target),
}

/// The defined outcome of a fault in the data path: the packet is aborted
/// and the program keeps serving the next one.
pub fn panic() -> (r: Action)
    ensures
        r == Action::Aborted,
{
    Action::Aborted
}

/// Whether the tables hold everything the encapsulator writes.
pub open spec fn headers_configured(t: Tables) -> bool {
    t.mac_wan.is_some() && t.mac_lan.is_some() && t.ip_wan.is_some() && t.ip_lan.is_some()
}

/// The frame the encapsulator builds around `inner` from the tables.
pub open spec fn encapsulated(t: Tables, inner: Seq<u8>) -> Seq<u8> {
    outer_header(
        t.mac_wan.unwrap()@,
        t.mac_lan.unwrap()@,
        t.ip_wan.unwrap()@,
        t.ip_lan.unwrap()@,
        payload_len_of(inner.len()),
    ) + inner
}

/// Whether the decapsulator takes `d` for tunnel traffic.
pub open spec fn carries_etherip(d: Seq<u8>) -> bool {
    d.len() >= OUTER_LEN && d[ETHERIP_OFFSET as int] == ETHERIP_VERSION
}

/// What is left of `d` once the outer headers are stripped.
pub open spec fn stripped(d: Seq<u8>) -> Seq<u8> {
    d.subrange(OUTER_LEN as int, d.len() as int)
}

/// The action for a forwarding lookup.
pub open spec fn forward(target: Option<Target>) -> Action {
    match target {
        Some(tg) => Action::Redirect(tg),
        None => Action::Drop,
    }
}

/// Writes the outer headers in front of the frame and forwards it to the WAN
/// target. The tables are read before the buffer is touched, so `Pass` always
/// leaves the packet exactly as it was.
pub fn encap(pkt: &mut Packet, t: &Tables) -> (r: Action)
    ensures
        !headers_configured(*t) ==> r == Action::Pass && *final(pkt) == *old(pkt),
        headers_configured(*t) && (old(pkt).headroom < OUTER_LEN
            || old(pkt).data@.len() + OUTER_LEN > usize::MAX) ==> r == Action::Pass
            && *final(pkt) == *old(pkt),
        headers_configured(*t) && old(pkt).headroom >= OUTER_LEN
            && old(pkt).data@.len() + OUTER_LEN <= usize::MAX ==> r == forward(t.redirect_wan)
            && final(pkt).data@ == encapsulated(*t, old(pkt).data@)
            && final(pkt).headroom == old(pkt).headroom - OUTER_LEN,
        r != Action::Aborted,
{
    let src_mac = match t.mac(Port::Wan) {
        Some(m) => m,
        None => return Action::Pass,
    };
    let dst_mac = match t.mac(Port::Lan) {
        Some(m) => m,
        None => return Action::Pass,
    };
    let src_ip = match t.ip(Port::Wan) {
        Some(a) => a,
        None => return Action::Pass,
    };
    let dst_ip = match t.ip(Port::Lan) {
        Some(a) => a,
        None => return Action::Pass,
    };
    let ghost inner = pkt.data@;
    let ghost room = pkt.headroom;
    if !pkt.grow_head(OUTER_LEN) {
        return Action::Pass;
    }
    let len = pkt.len();
    if !check_view(len, 0, OUTER_LEN) {
        return panic();
    }
    let inner_len = len - OUTER_LEN;
    let payload = ((inner_len as u64 + ETHERIP_HDR_LEN as u64) % 0x10000) as u16;
    assert(inner_len == inner.len());
    assert(payload == payload_len_of(inner.len()));
    let mut hdr: Vec<u8> = Vec::with_capacity(OUTER_LEN);
    push_all(&mut hdr, &dst_mac);
    push_all(&mut hdr, &src_mac);
    hdr.push(0x86u8);
    hdr.push(0xddu8);
    hdr.push(0x60u8);
    hdr.push(0u8);
    hdr.push(0u8);
    hdr.push(0u8);
    hdr.push((payload / 256) as u8);
    hdr.push((payload % 256) as u8);
    hdr.push(IPPROTO_ETHERIP);
    hdr.push(HOP_LIMIT);
    push_all(&mut hdr, &src_ip);
    push_all(&mut hdr, &dst_ip);
    hdr.push(ETHERIP_VERSION);
    hdr.push(0u8);
    proof {
        broadcast use vstd::array::group_array_axioms;
        assert(hdr@ =~= outer_header(src_mac@, dst_mac@, src_ip@, dst_ip@, payload));
    }
    let mut i: usize = 0;
    while i < OUTER_LEN
        invariant
            i <= OUTER_LEN,
            hdr@.len() == OUTER_LEN,
            pkt.data@.len() == len,
            len >= OUTER_LEN,
            pkt.data@.subrange(0, i as int) == hdr@.subrange(0, i as int),
            pkt.data@.subrange(OUTER_LEN as int, len as int) == inner,
            pkt.headroom == room - OUTER_LEN,
        decreases OUTER_LEN - i,
    {
        pkt.data.set(i, hdr[i]);
        i = i + 1;
        assert(pkt.data@.subrange(0, i as int) =~= hdr@.subrange(0, i as int));
        assert(pkt.data@.subrange(OUTER_LEN as int, len as int) =~= inner);
    }
    assert(pkt.data@ =~= pkt.data@.subrange(0, OUTER_LEN as int) + pkt.data@.subrange(OUTER_LEN as int, len as int));
    assert(hdr@.subrange(0, OUTER_LEN as int) =~= hdr@);
    assert(pkt.data@ =~= encapsulated(*t, inner));
    match t.redirect(Port::Wan) {
        Some(tg) => Action::Redirect(tg),
        None => Action::Drop,
    }
}

/// Strips the outer headers of a frame that carries the EtherIP version byte
/// at its expected offset, and forwards the inner frame to the LAN target.
pub fn decap(pkt: &mut Packet, t: &Tables) -> (r: Action)
    ensures
        old(pkt).data@.len() < OUTER_LEN ==> r == Action::Aborted && *final(pkt) == *old(pkt),
        old(pkt).data@.len() >= OUTER_LEN && !carries_etherip(old(pkt).data@) ==> r == Action::Pass
            && *final(pkt) == *old(pkt),
        carries_etherip(old(pkt).data@) && (old(pkt).data@.len() < OUTER_LEN + ETH_HDR_LEN
            || old(pkt).headroom + OUTER_LEN > usize::MAX) ==> r == Action::Pass
            && *final(pkt) == *old(pkt),
        carries_etherip(old(pkt).data@) && old(pkt).data@.len() >= OUTER_LEN + ETH_HDR_LEN
            && old(pkt).headroom + OUTER_LEN <= usize::MAX ==> r == forward(t.redirect_lan)
            && final(pkt).data@ == stripped(old(pkt).data@)
            && final(pkt).headroom == old(pkt).headroom + OUTER_LEN,
{
    if !check_view(pkt.len(), ETHERIP_OFFSET, ETHERIP_HDR_LEN) {
        return panic();
    }
    if pkt.data[ETHERIP_OFFSET] != ETHERIP_VERSION {
        return Action::Pass;
    }
    if !pkt.shrink_head(OUTER_LEN) {
        return Action::Pass;
    }
    match t.redirect(Port::Lan) {
        Some(tg) => Action::Redirect(tg),
        None => Action::Drop,
    }
}

/// Decapsulating what the encapsulator built gives back the inner frame
/// byte for byte, whatever the configured addresses.
pub proof fn lemma_round_trip(t: Tables, inner: Seq<u8>)
    requires
        headers_configured(t),
        inner.len() >= ETH_HDR_LEN,
    ensures
        carries_etherip(encapsulated(t, inner)),
        stripped(encapsulated(t, inner)) == inner,
        encapsulated(t, inner).len() >= OUTER_LEN + ETH_HDR_LEN,
{
    broadcast use vstd::array::group_array_axioms;
    let e = encapsulated(t, inner);
    assert(e[ETHERIP_OFFSET as int] == ETHERIP_VERSION);
    assert(stripped(e) =~= inner);
}

/// A frame whose byte at the EtherIP offset is not the version byte is
/// passed unchanged, whatever else it holds.
pub proof fn lemma_version_gate(d: Seq<u8>)
    requires
        d.len() > ETHERIP_OFFSET,
        d[ETHERIP_OFFSET as int] != ETHERIP_VERSION,
    ensures
        !carries_etherip(d),
{
}

} // verus!
