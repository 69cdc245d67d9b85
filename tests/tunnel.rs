use etherip_zdp::datapath::{decap, encap, Action};
use etherip_zdp::packet::Packet;
use etherip_zdp::resolver::{resolve_and_commit, AddrEntry, LinkEntry, NeighEntry, ResolveError};
use etherip_zdp::tables::{Tables, Target};
use etherip_zdp::wire::check_view;

const LOCAL: [u8; 16] = [0x20, 0x01, 0x0d, 0xb8, 0, 0, 0, 0, 0, 0, 0, 0, 0, 0, 0, 1];
const PEER: [u8; 16] = [0x20, 0x01, 0x0d, 0xb8, 0, 0, 0, 0, 0, 0, 0, 0, 0, 0, 0, 2];
const LOCAL_MAC: [u8; 6] = [0x11, 0x22, 0x33, 0x44, 0x55, 0x66];
const PEER_MAC: [u8; 6] = [0xaa, 0xbb, 0xcc, 0xdd, 0xee, 0xff];

fn snapshots() -> (Vec<AddrEntry>, Vec<LinkEntry>, Vec<NeighEntry>) {
    let addrs = vec![
        AddrEntry { address: [0xfe, 0x80, 0, 0, 0, 0, 0, 0, 0, 0, 0, 0, 0, 0, 0, 9], ifindex: 7 },
        AddrEntry { address: LOCAL, ifindex: 2 },
    ];
    let links = vec![
        LinkEntry { ifindex: 1, name: b"lo".to_vec(), mac: [0; 6] },
        LinkEntry { ifindex: 2, name: b"eth0".to_vec(), mac: LOCAL_MAC },
        LinkEntry { ifindex: 3, name: b"eth1".to_vec(), mac: [1, 2, 3, 4, 5, 6] },
    ];
    let neighs = vec![NeighEntry { ifindex: 2, address: PEER, mac: PEER_MAC }];
    (addrs, links, neighs)
}

fn configured() -> Tables {
    let (a, l, n) = snapshots();
    let mut t = Tables::new();
    resolve_and_commit(&mut t, LOCAL, PEER, &b"eth1".to_vec(), &a, &l, &n).unwrap();
    t
}

#[test]
fn resolver_scenario_fills_all_tables() {
    let t = configured();
    assert_eq!(t.mac_wan, Some(LOCAL_MAC));
    assert_eq!(t.mac_lan, Some(PEER_MAC));
    assert_eq!(t.ip_wan, Some(LOCAL));
    assert_eq!(t.ip_lan, Some(PEER));
    assert_eq!(t.redirect_wan, Some(Target { ifindex: 2, queue: None }));
    assert_eq!(t.redirect_lan, Some(Target { ifindex: 3, queue: None }));
}

#[test]
fn resolver_failure_leaves_tables_empty() {
    let (a, l, _) = snapshots();
    let mut t = Tables::new();
    let r = resolve_and_commit(&mut t, LOCAL, PEER, &b"eth1".to_vec(), &a, &l, &vec![]);
    assert_eq!(r.unwrap_err(), ResolveError::NoPeerNeighbor);
    assert!(t.mac_wan.is_none() && t.mac_lan.is_none());
    assert!(t.ip_wan.is_none() && t.ip_lan.is_none());
    assert!(t.redirect_wan.is_none() && t.redirect_lan.is_none());
}

#[test]
fn resolver_errors_by_step() {
    let (a, l, n) = snapshots();
    let mut t = Tables::new();
    let name = b"eth1".to_vec();
    assert_eq!(resolve_and_commit(&mut t, PEER, PEER, &name, &a, &l, &n).unwrap_err(), ResolveError::NoLocalAddress);
    let l2 = vec![l[2].clone()];
    assert_eq!(resolve_and_commit(&mut t, LOCAL, PEER, &name, &a, &l2, &n).unwrap_err(), ResolveError::NoLocalLink);
    assert_eq!(
        resolve_and_commit(&mut t, LOCAL, PEER, &b"eth9".to_vec(), &a, &l, &n).unwrap_err(),
        ResolveError::NoLanInterface
    );
    assert!(t.mac_wan.is_none() && t.redirect_lan.is_none());
}

#[test]
fn encap_64_byte_frame_payload_length() {
    let t = configured();
    let inner: Vec<u8> = (0..64u8).collect();
    let mut p = Packet::new(inner.clone(), 256);
    let r = encap(&mut p, &t);
    assert_eq!(r, Action::Redirect(Target { ifindex: 2, queue: None }));
    assert_eq!(p.data.len(), 120);
    assert_eq!(&p.data[0..6], &PEER_MAC);
    assert_eq!(&p.data[6..12], &LOCAL_MAC);
    assert_eq!(&p.data[12..14], &[0x86, 0xdd]);
    assert_eq!(p.data[14] >> 4, 6);
    assert_eq!(u16::from_be_bytes([p.data[18], p.data[19]]), 66);
    assert_eq!(p.data[20], 97);
    assert_eq!(p.data[21], 255);
    assert_eq!(&p.data[22..38], &LOCAL);
    assert_eq!(&p.data[38..54], &PEER);
    assert_eq!(&p.data[54..56], &[0x30, 0x00]);
    assert_eq!(&p.data[56..], &inner[..]);
    assert_eq!(p.headroom, 200);
}

#[test]
fn round_trip_restores_frame() {
    let t = configured();
    let inner: Vec<u8> = (0..100u8).map(|b| b.wrapping_mul(7)).collect();
    let mut p = Packet::new(inner.clone(), 64);
    encap(&mut p, &t);
    let r = decap(&mut p, &t);
    assert_eq!(r, Action::Redirect(Target { ifindex: 3, queue: None }));
    assert_eq!(p.data, inner);
    assert_eq!(p.headroom, 64);
}

#[test]
fn decap_version_gate_passes() {
    let t = configured();
    let mut d = vec![0x30u8; 80];
    d[54] = 0x40;
    let mut p = Packet::new(d.clone(), 0);
    assert_eq!(decap(&mut p, &t), Action::Pass);
    assert_eq!(p.data, d);
}

#[test]
fn decap_short_frame_aborts() {
    let t = configured();
    let mut p = Packet::new(vec![0x30u8; 55], 0);
    assert_eq!(decap(&mut p, &t), Action::Aborted);
    assert_eq!(p.data.len(), 55);
}

#[test]
fn decap_without_target_drops() {
    let mut t = configured();
    t.redirect_lan = None;
    let mut d = vec![0u8; 70];
    d[54] = 0x30;
    let mut p = Packet::new(d, 0);
    assert_eq!(decap(&mut p, &t), Action::Drop);
    assert_eq!(p.data.len(), 14);
}

#[test]
fn encap_with_empty_tables_passes_untouched() {
    let t = Tables::new();
    let mut p = Packet::new(vec![1u8; 64], 256);
    assert_eq!(encap(&mut p, &t), Action::Pass);
    assert_eq!(p.data, vec![1u8; 64]);
    assert_eq!(p.headroom, 256);
}

#[test]
fn encap_without_headroom_passes() {
    let t = configured();
    let mut p = Packet::new(vec![1u8; 64], 55);
    assert_eq!(encap(&mut p, &t), Action::Pass);
    assert_eq!(p.data.len(), 64);
}

#[test]
fn encap_without_target_drops() {
    let mut t = configured();
    t.redirect_wan = None;
    let mut p = Packet::new(vec![1u8; 64], 56);
    assert_eq!(encap(&mut p, &t), Action::Drop);
    assert_eq!(p.data.len(), 120);
}

#[test]
fn checked_view_bounds() {
    assert!(check_view(56, 54, 2));
    assert!(!check_view(55, 54, 2));
    assert!(!check_view(10, usize::MAX, 2));
    assert!(check_view(0, 0, 0));
}
