//! What the speaker is configured with.
use crate::net::{IpAddr, Ipv4Addr};
use std::collections::HashMap;
use vstd::prelude::*;

verus! {

#[derive(Clone)]
pub struct BgpGlobalConfig {
    pub as_: u32,
    pub router_id: Ipv4Addr,
}

#[derive(Clone)]
pub struct BgpGlobalBase {
    pub global: BgpGlobalConfig,
}

#[derive(Clone)]
pub enum PeerType {
    Internal,
    External,
}

#[derive(Clone)]
pub struct BgpNeighborBaseConfig {
    pub router_id: Ipv4Addr,
    pub peer_group: String,
    pub neighbor_address: IpAddr,
    pub neighbor_port: u16,
    pub enabled: bool,
    pub peer_as: u32,
    pub local_as: u32,
    pub peer_type: PeerType,
}

#[derive(Clone)]
pub struct BgpCommonNeighborGroupTimersConfig {
    pub connect_retry: u16,
    pub hold_time: u16,
    pub keepalive_internal: u16,
    pub minimum_advertisement_interval: u16,
    pub restart_time: u16,
}

#[derive(Clone)]
pub struct BgpNeighborBaseTimers {
    pub config: BgpCommonNeighborGroupTimersConfig,
}

#[derive(Clone)]
pub struct Neighbor {
    pub neighbor_address: IpAddr,
    pub config: BgpNeighborBaseConfig,
    pub timers: BgpNeighborBaseTimers,
}

#[derive(Clone)]
pub struct BgpPeerGroupBaseConfig {
    pub peer_group_name: String,
    pub peer_as: u32,
    pub local_as: u32,
    pub peer_type: PeerType,
}

#[derive(Clone)]
pub struct PeerGroup {
    pub peer_group_name: String,
    pub config: BgpPeerGroupBaseConfig,
}

pub type BgpNeighborList = HashMap<IpAddr, Neighbor>;

pub type BgpPeerGroupList = HashMap<String, PeerGroup>;

/// The whole configuration.
#[derive(Clone)]
pub struct Bgp {
    pub global: BgpGlobalBase,
    pub neighbors: BgpNeighborList,
    pub peer_groups: BgpPeerGroupList,
}

impl Bgp {
    /// A configuration without neighbors, for autonomous system 65000.
    pub fn new() -> (r: Bgp)
        ensures
            r.global.global.as_ == 65000,
            r.global.global.router_id == Ipv4Addr::of(seq![192u8, 0u8, 2u8, 1u8]),
            r.neighbors@ == Map::<IpAddr, Neighbor>::empty(),
            r.peer_groups@ == Map::<String, PeerGroup>::empty(),
    {
        Bgp {
            global: BgpGlobalBase {
                global: BgpGlobalConfig { as_: 65000, router_id: Ipv4Addr::new(192, 0, 2, 1) },
            },
            neighbors: HashMap::new(),
            peer_groups: HashMap::new(),
        }
    }
}

} // verus!
