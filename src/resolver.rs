//! Derivation of the tunnel configuration from snapshots of the host's
//! address, link and neighbor tables, committed all at once or not at all.
use crate::tables::{Config, Tables, Target};
use vstd::prelude::*;

verus! {

/// An entry of the host's address table.
#[derive(Clone, Copy, Debug)]
pub struct AddrEntry {
    pub address: [u8; 16],
    pub ifindex: u32,
}

/// An entry of the host's link table.
#[derive(Clone, Debug)]
pub struct LinkEntry {
    pub ifindex: u32,
    pub name: Vec<u8>,
    pub mac: [u8; 6],
}

/// An entry of the host's neighbor cache.
#[derive(Clone, Copy, Debug)]
pub struct NeighEntry {
    pub ifindex: u32,
    pub address: [u8; 16],
    pub mac: [u8; 6],
}

/// Which lookup found nothing.
#[derive(Clone, Copy, Debug, PartialEq, Eq, Structural)]
pub enum ResolveError {
    NoLocalAddress,
    NoLocalLink,
    NoPeerNeighbor,
    NoLanInterface,
}

pub open spec fn addr_matches(e: AddrEntry, local: Seq<u8>) -> bool {
    e.address@ == local
}

pub open spec fn link_matches(e: LinkEntry, ifindex: u32) -> bool {
    e.ifindex == ifindex
}

pub open spec fn neigh_matches(e: NeighEntry, ifindex: u32, peer: Seq<u8>) -> bool {
    e.ifindex == ifindex && e.address@ == peer
}

pub open spec fn name_matches(e: LinkEntry, name: Seq<u8>) -> bool {
    e.name@ == name
}

/// Whether `r` is the position of the first element of `s` satisfying `p`.
pub open spec fn is_first<A>(s: Seq<A>, p: spec_fn(A) -> bool, r: Option<usize>) -> bool {
    match r {
        Some(i) => i < s.len() && p(s[i as int]) && forall|j: int| 0 <= j < i ==> !p(#[trigger] s[j]),
        None => forall|j: int| 0 <= j < s.len() ==> !p(#[trigger] s[j]),
    }
}

fn bytes_eq(a: &[u8], b: &[u8]) -> (r: bool)
    ensures
        r == (a@ == b@),
{
    if a.len() != b.len() {
        return false;
    }
    let mut i: usize = 0;
    while i < a.len()
        invariant
            i <= a@.len(),
            a@.len() == b@.len(),
            forall|k: int| 0 <= k < i ==> a@[k] == b@[k],
        decreases a@.len() - i,
    {
        if a[i] != b[i] {
            return false;
        }
        i = i + 1;
    }
    assert(a@ =~= b@);
    true
}

/// Position of the first address entry that holds `local`.
pub fn find_address(addrs: &Vec<AddrEntry>, local: &[u8; 16]) -> (r: Option<usize>)
    ensures
        is_first(addrs@, |e: AddrEntry| addr_matches(e, local@), r),
{
    let mut i: usize = 0;
    while i < addrs.len()
        invariant
            i <= addrs@.len(),
            forall|j: int| 0 <= j < i ==> !addr_matches(#[trigger] addrs@[j], local@),
        decreases addrs@.len() - i,
    {
        if bytes_eq(addrs[i].address.as_slice(), local.as_slice()) {
            return Some(i);
        }
        i = i + 1;
    }
    None
}

/// Position of the first link entry with interface index `ifindex`.
pub fn find_link_by_index(links: &Vec<LinkEntry>, ifindex: u32) -> (r: Option<usize>)
    ensures
        is_first(links@, |e: LinkEntry| link_matches(e, ifindex), r),
{
    let mut i: usize = 0;
    while i < links.len()
        invariant
            i <= links@.len(),
            forall|j: int| 0 <= j < i ==> !link_matches(#[trigger] links@[j], ifindex),
        decreases links@.len() - i,
    {
        if links[i].ifindex == ifindex {
            return Some(i);
        }
        i = i + 1;
    }
    None
}

/// Position of the first link entry named `name`.
pub fn find_link_by_name(links: &Vec<LinkEntry>, name: &Vec<u8>) -> (r: Option<usize>)
    ensures
        is_first(links@, |e: LinkEntry| name_matches(e, name@), r),
{
    let mut i: usize = 0;
    while i < links.len()
        invariant
            i <= links@.len(),
            forall|j: int| 0 <= j < i ==> !name_matches(#[trigger] links@[j], name@),
        decreases links@.len() - i,
    {
        if bytes_eq(links[i].name.as_slice(), name.as_slice()) {
            return Some(i);
        }
        i = i + 1;
    }
    None
}

/// Position of the first neighbor entry for `peer` on interface `ifindex`.
pub fn find_neighbor(neighs: &Vec<NeighEntry>, ifindex: u32, peer: &[u8; 16]) -> (r: Option<usize>)
    ensures
        is_first(neighs@, |e: NeighEntry| neigh_matches(e, ifindex, peer@), r),
{
    let mut i: usize = 0;
    while i < neighs.len()
        invariant
            i <= neighs@.len(),
            forall|j: int| 0 <= j < i ==> !neigh_matches(#[trigger] neighs@[j], ifindex, peer@),
        decreases neighs@.len() - i,
    {
        if neighs[i].ifindex == ifindex && bytes_eq(neighs[i].address.as_slice(), peer.as_slice()) {
            return Some(i);
        }
        i = i + 1;
    }
    None
}

/// The outcome of resolution over the given snapshots: each lookup takes the
/// first matching entry, and the first lookup that finds nothing decides the error.
pub open spec fn resolution(
    local: [u8; 16],
    peer: [u8; 16],
    lan_name: Seq<u8>,
    addrs: Seq<AddrEntry>,
    links: Seq<LinkEntry>,
    neighs: Seq<NeighEntry>,
) -> Result<Config, ResolveError> {
    let pa = |e: AddrEntry| addr_matches(e, local@);
    if !(exists|i: int| 0 <= i < addrs.len() && pa(#[trigger] addrs[i])) {
        Err(ResolveError::NoLocalAddress)
    } else {
        let ai = choose|i: int| 0 <= i < addrs.len() && pa(#[trigger] addrs[i])
            && forall|j: int| 0 <= j < i ==> !pa(#[trigger] addrs[j]);
        let wan = addrs[ai].ifindex;
        let pl = |e: LinkEntry| link_matches(e, wan);
        if !(exists|i: int| 0 <= i < links.len() && pl(#[trigger] links[i])) {
            Err(ResolveError::NoLocalLink)
        } else {
            let li = choose|i: int| 0 <= i < links.len() && pl(#[trigger] links[i])
                && forall|j: int| 0 <= j < i ==> !pl(#[trigger] links[j]);
            let pn = |e: NeighEntry| neigh_matches(e, wan, peer@);
            if !(exists|i: int| 0 <= i < neighs.len() && pn(#[trigger] neighs[i])) {
                Err(ResolveError::NoPeerNeighbor)
            } else {
                let ni = choose|i: int| 0 <= i < neighs.len() && pn(#[trigger] neighs[i])
                    && forall|j: int| 0 <= j < i ==> !pn(#[trigger] neighs[j]);
                let pm = |e: LinkEntry| name_matches(e, lan_name);
                if !(exists|i: int| 0 <= i < links.len() && pm(#[trigger] links[i])) {
                    Err(ResolveError::NoLanInterface)
                } else {
                    let mi = choose|i: int| 0 <= i < links.len() && pm(#[trigger] links[i])
                        && forall|j: int| 0 <= j < i ==> !pm(#[trigger] links[j]);
                    Ok(Config {
                        local_mac: links[li].mac,
                        peer_mac: neighs[ni].mac,
                        local_ip: local,
                        peer_ip: peer,
                        wan_target: Target { ifindex: wan, queue: None },
                        lan_target: Target { ifindex: links[mi].ifindex, queue: None },
                    })
                }
            }
        }
    }
}

/// Derives the configuration from the snapshots. Every lookup must succeed.
pub fn resolve(
    local: [u8; 16],
    peer: [u8; 16],
    lan_name: &Vec<u8>,
    addrs: &Vec<AddrEntry>,
    links: &Vec<LinkEntry>,
    neighs: &Vec<NeighEntry>,
) -> (r: Result<Config, ResolveError>)
    ensures
        r == resolution(local, peer, lan_name@, addrs@, links@, neighs@),
{
    let ai = match find_address(addrs, &local) {
        Some(i) => i,
        None => return Err(ResolveError::NoLocalAddress),
    };
    let wan = addrs[ai].ifindex;
    let li = match find_link_by_index(links, wan) {
        Some(i) => i,
        None => return Err(ResolveError::NoLocalLink),
    };
    let ni = match find_neighbor(neighs, wan, &peer) {
        Some(i) => i,
        None => return Err(ResolveError::NoPeerNeighbor),
    };
    let mi = match find_link_by_name(links, lan_name) {
        Some(i) => i,
        None => return Err(ResolveError::NoLanInterface),
    };
    Ok(Config {
        local_mac: links[li].mac,
        peer_mac: neighs[ni].mac,
        local_ip: local,
        peer_ip: peer,
        wan_target: Target { ifindex: wan, queue: None },
        lan_target: Target { ifindex: links[mi].ifindex, queue: None },
    })
}

/// Resolves and, only when every lookup succeeded, commits the whole
/// configuration; on failure the tables are left exactly as they were.
pub fn resolve_and_commit(
    tables: &mut Tables,
    local: [u8; 16],
    peer: [u8; 16],
    lan_name: &Vec<u8>,
    addrs: &Vec<AddrEntry>,
    links: &Vec<LinkEntry>,
    neighs: &Vec<NeighEntry>,
) -> (r: Result<Config, ResolveError>)
    ensures
        r == resolution(local, peer, lan_name@, addrs@, links@, neighs@),
        r is Ok ==> final(tables).holds(r->Ok_0),
        r is Err ==> *final(tables) == *old(tables),
{
    let r = resolve(local, peer, lan_name, addrs, links, neighs);
    if let Ok(c) = &r {
        tables.commit(c);
    }
    r
}

/// Starting from empty tables, a resolution leaves either every table
/// populated or every table empty.
pub proof fn lemma_atomic_commit(before: Tables, after: Tables, r: Result<Config, ResolveError>)
    requires
        before.all_empty(),
        r is Ok ==> after.holds(r->Ok_0),
        r is Err ==> after == before,
    ensures
        after.all_empty() || (after.mac_wan.is_some() && after.mac_lan.is_some()
            && after.ip_wan.is_some() && after.ip_lan.is_some()
            && after.redirect_wan.is_some() && after.redirect_lan.is_some()),
{
}

} // verus!
