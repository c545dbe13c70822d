//! Raw kernel records, held as plain values.
//!
//! These mirror the content of the fixed-layout structures that the media
//! controller interface fills: the identity record, one record per graph
//! element, and the count/version header of the two topology round-trips.
//! The caller that issues the ioctls copies the kernel's structures into
//! these types field for field; everything downstream of that copy is
//! verified.

use vstd::prelude::*;

verus! {

/// Content of the kernel's device identity record.
#[derive(Debug, Clone, Copy)]
pub struct RawDeviceInfo {
    pub driver: [u8; 16],
    pub model: [u8; 32],
    pub serial: [u8; 40],
    pub bus_info: [u8; 32],
    pub media_version: u32,
    pub hw_revision: u32,
    pub driver_version: u32,
}

/// Content of one kernel entity record.
#[derive(Debug, Clone, Copy)]
pub struct RawEntity {
    pub id: u32,
    pub name: [u8; 64],
    pub function: u32,
    pub flags: u32,
}

/// Content of one kernel interface record.
#[derive(Debug, Clone, Copy)]
pub struct RawInterface {
    pub id: u32,
    pub intf_type: u32,
    pub flags: u32,
}

/// Content of one kernel pad record.
#[derive(Debug, Clone, Copy)]
pub struct RawPad {
    pub id: u32,
    pub entity_id: u32,
    pub flags: u32,
    pub index: u32,
}

/// Content of one kernel link record.
#[derive(Debug, Clone, Copy)]
pub struct RawLink {
    pub id: u32,
    pub source_id: u32,
    pub sink_id: u32,
    pub flags: u32,
}

/// What the sizing round-trip of a topology query reports: the element
/// count of each collection and the topology version stamp under which
/// those counts were taken.
#[derive(Debug, Clone, Copy, PartialEq, Eq)]
pub struct SizingReport {
    pub topology_version: u64,
    pub num_entities: u32,
    pub num_interfaces: u32,
    pub num_pads: u32,
    pub num_links: u32,
}

/// What the data round-trip of a topology query hands back: the version
/// stamp it ran under and the four collections of raw records.  When the
/// version differs from the sizing phase's, the collections are torn and
/// must not be interpreted; the decoder returns an error without reading
/// them.
#[derive(Debug)]
pub struct FetchReply {
    pub topology_version: u64,
    pub entities: Vec<RawEntity>,
    pub interfaces: Vec<RawInterface>,
    pub pads: Vec<RawPad>,
    pub links: Vec<RawLink>,
}

} // verus!
