//! The three configuration tables, keyed by logical port.
use vstd::prelude::*;

verus! {

/// The role of an entry: the IP underlay side or the local Ethernet segment.
#[derive(Clone, Copy, Debug, PartialEq, Eq, Structural)]
pub enum Port {
    Wan,
    Lan,
}

/// A forwarding target: an interface index and an optional transmit queue.
#[derive(Clone, Copy, Debug, PartialEq, Eq, Structural)]
pub struct Target {
    pub ifindex: u32,
    pub queue: Option<u32>,
}

/// Configuration derived once by the resolver and committed as a whole.
#[derive(Clone, Copy, Debug)]
pub struct Config {
    pub local_mac: [u8; 6],
    pub peer_mac: [u8; 6],
    pub local_ip: [u8; 16],
    pub peer_ip: [u8; 16],
    pub wan_target: Target,
    pub lan_target: Target,
}

/// MAC, IP and redirect tables, each holding at most a WAN and a LAN entry.
#[derive(Clone, Copy, Debug)]
pub struct Tables {
    pub mac_wan: Option<[u8; 6]>,
    pub mac_lan: Option<[u8; 6]>,
    pub ip_wan: Option<[u8; 16]>,
    pub ip_lan: Option<[u8; 16]>,
    pub redirect_wan: Option<Target>,
    pub redirect_lan: Option<Target>,
}

impl Tables {
    /// No entry in any table.
    pub open spec fn all_empty(&self) -> bool {
        self.mac_wan.is_none() && self.mac_lan.is_none() && self.ip_wan.is_none()
            && self.ip_lan.is_none() && self.redirect_wan.is_none() && self.redirect_lan.is_none()
    }

    /// Every table holds exactly the entries of `c`.
    pub open spec fn holds(&self, c: Config) -> bool {
        self.mac_wan == Some(c.local_mac) && self.mac_lan == Some(c.peer_mac)
            && self.ip_wan == Some(c.local_ip) && self.ip_lan == Some(c.peer_ip)
            && self.redirect_wan == Some(c.wan_target) && self.redirect_lan == Some(c.lan_target)
    }

    pub fn new() -> (r: Tables)
        ensures
            r.all_empty(),
    {
        Tables { mac_wan: None, mac_lan: None, ip_wan: None, ip_lan: None, redirect_wan: None, redirect_lan: None }
    }

    /// Writes every entry of `c`.
    pub fn commit(&mut self, c: &Config)
        ensures
            final(self).holds(*c),
    {
        self.mac_wan = Some(c.local_mac);
        self.mac_lan = Some(c.peer_mac);
        self.ip_wan = Some(c.local_ip);
        self.ip_lan = Some(c.peer_ip);
        self.redirect_wan = Some(c.wan_target);
        self.redirect_lan = Some(c.lan_target);
    }

    pub fn mac(&self, p: Port) -> (r: Option<[u8; 6]>)
        ensures
            r == (match p { Port::Wan => self.mac_wan, Port::Lan => self.mac_lan }),
    {
        match p {
            Port::Wan => self.mac_wan,
            Port::Lan => self.mac_lan,
        }
    }

    pub fn ip(&self, p: Port) -> (r: Option<[u8; 16]>)
        ensures
            r == (match p { Port::Wan => self.ip_wan, Port::Lan => self.ip_lan }),
    {
        match p {
            Port::Wan => self.ip_wan,
            Port::Lan => self.ip_lan,
        }
    }

    pub fn redirect(&self, p: Port) -> (r: Option<Target>)
        ensures
            r == (match p { Port::Wan => self.redirect_wan, Port::Lan => self.redirect_lan }),
    {
        match p {
            Port::Wan => self.redirect_wan,
            Port::Lan => self.redirect_lan,
        }
    }
}

} // verus!
