//! What a node advertises about itself and what it remembers of its peers.

use vstd::prelude::*;
use crate::clock::Timestamp;

verus! {

/// The kind of machine a node runs on.
#[derive(Clone, Copy, Debug, PartialEq, Eq, Hash, Structural)]
pub enum DeviceType {
    Mobile,
    Desktop,
    Web,
    Headless,
    Server,
}

/// The text of an optional string, where there is one.
pub open spec fn text_of(value: Option<String>) -> Option<Seq<char>> {
    match value {
        Some(s) => Some(s@),
        None => None,
    }
}

/// Copies an optional string.
pub fn clone_text(value: &Option<String>) -> (copy: Option<String>)
    ensures
        text_of(copy) == text_of(*value),
{
    match value {
        Some(s) => Some(s.clone()),
        None => None,
    }
}

/// A node as it presents itself to its peers.
#[derive(Debug)]
pub struct DeviceInfo {
    pub alias: String,
    pub device_model: Option<String>,
    pub version: String,
    pub device_type: Option<DeviceType>,
    pub fingerprint: String,
    pub api_port: u16,
    pub protocol: String,
}

/// The mathematical content of a [`DeviceInfo`].
pub struct Announcement {
    pub alias: Seq<char>,
    pub device_model: Option<Seq<char>>,
    pub version: Seq<char>,
    pub device_type: Option<DeviceType>,
    pub fingerprint: Seq<char>,
    pub api_port: u16,
    pub protocol: Seq<char>,
}

impl View for DeviceInfo {
    type V = Announcement;

    open spec fn view(&self) -> Announcement {
        Announcement {
            alias: self.alias@,
            device_model: text_of(self.device_model),
            version: self.version@,
            device_type: self.device_type,
            fingerprint: self.fingerprint@,
            api_port: self.api_port,
            protocol: self.protocol@,
        }
    }
}

impl Clone for DeviceInfo {
    fn clone(&self) -> (copy: Self)
        ensures
            copy@ == self@,
    {
        DeviceInfo {
            alias: self.alias.clone(),
            device_model: clone_text(&self.device_model),
            version: self.version.clone(),
            device_type: self.device_type,
            fingerprint: self.fingerprint.clone(),
            api_port: self.api_port,
            protocol: self.protocol.clone(),
        }
    }
}

/// A peer as last heard of. Peers are told apart by fingerprint alone: two
/// peers may share an alias.
#[derive(Debug)]
pub struct DiscoveredDevice {
    pub alias: String,
    pub device_model: Option<String>,
    pub device_type: Option<DeviceType>,
    pub fingerprint: String,
    pub last_seen: Timestamp,
}

/// The mathematical content of a [`DiscoveredDevice`].
pub struct Peer {
    pub alias: Seq<char>,
    pub device_model: Option<Seq<char>>,
    pub device_type: Option<DeviceType>,
    pub fingerprint: Seq<char>,
    pub last_seen: Timestamp,
}

impl View for DiscoveredDevice {
    type V = Peer;

    open spec fn view(&self) -> Peer {
        Peer {
            alias: self.alias@,
            device_model: text_of(self.device_model),
            device_type: self.device_type,
            fingerprint: self.fingerprint@,
            last_seen: self.last_seen,
        }
    }
}

impl Clone for DiscoveredDevice {
    fn clone(&self) -> (copy: Self)
        ensures
            copy@ == self@,
    {
        DiscoveredDevice {
            alias: self.alias.clone(),
            device_model: clone_text(&self.device_model),
            device_type: self.device_type,
            fingerprint: self.fingerprint.clone(),
            last_seen: self.last_seen,
        }
    }
}

/// The peers that a list of devices stands for, in the list's order.
pub open spec fn peers_of(devices: Seq<DiscoveredDevice>) -> Seq<Peer> {
    devices.map_values(|d: DiscoveredDevice| d@)
}

/// The peer that an announcement received at `now` makes known.
pub open spec fn peer_announced(announcement: Announcement, now: Timestamp) -> Peer {
    Peer {
        alias: announcement.alias,
        device_model: announcement.device_model,
        device_type: announcement.device_type,
        fingerprint: announcement.fingerprint,
        last_seen: now,
    }
}

/// What a listener makes of a decoded announcement: nothing where it is the
/// node's own (same fingerprint), else the sender as seen at `now`.
pub open spec fn heard(own_fingerprint: Seq<char>, announcement: Announcement, now: Timestamp)
    -> Option<Peer> {
    if announcement.fingerprint == own_fingerprint {
        None
    } else {
        Some(peer_announced(announcement, now))
    }
}

} // verus!
