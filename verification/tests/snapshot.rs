//! Tests for the two-phase topology snapshot query.

use media_topology::raw::{FetchReply, RawEntity, RawInterface, RawLink, RawPad, SizingReport};
use media_topology::topology::{
    check_fetch, check_sizing, decode_topology, GetTopologyError, MediaV2Entity, MediaV2Interface,
    MediaV2Link, MediaV2Pad,
};

fn name_bytes(text: &str) -> [u8; 64] {
    let mut bytes = [0u8; 64];
    let src = text.as_bytes();
    assert!(src.len() < 64);
    let mut i = 0;
    while i < src.len() {
        bytes[i] = src[i];
        i += 1;
    }
    bytes
}

fn entity(id: u32, name: &str, function: u32, flags: u32) -> RawEntity {
    RawEntity { id, name: name_bytes(name), function, flags }
}

fn pad(id: u32, entity_id: u32, flags: u32, index: u32) -> RawPad {
    RawPad { id, entity_id, flags, index }
}

fn link(id: u32, source_id: u32, sink_id: u32, flags: u32) -> RawLink {
    RawLink { id, source_id, sink_id, flags }
}

fn sizing(version: u64, entities: u32, interfaces: u32, pads: u32, links: u32) -> SizingReport {
    SizingReport {
        topology_version: version,
        num_entities: entities,
        num_interfaces: interfaces,
        num_pads: pads,
        num_links: links,
    }
}

/// Sizing report and matching reply: three entities, two pads, one link.
fn sample_query(reply_version: u64) -> (SizingReport, FetchReply) {
    let report = sizing(10, 3, 0, 2, 1);
    let reply = FetchReply {
        topology_version: reply_version,
        entities: vec![
            entity(1, "sensor", 0x0002_0001, 0),
            entity(2, "isp", 0x0002_0002, 0),
            entity(3, "video0", 0x0001_0001, 1),
        ],
        interfaces: vec![],
        pads: vec![pad(10, 1, 1, 0), pad(11, 2, 2, 0)],
        links: vec![link(20, 10, 11, 3)],
    };
    (report, reply)
}

#[test]
fn entity_from_ffi_maps_fields() {
    let raw = entity(7, "sensor", 0x0002_0001, 5);
    let e = MediaV2Entity::from_ffi(&raw);
    assert_eq!(e.id, 7);
    assert_eq!(e.name, "sensor");
    assert_eq!(e.function, 0x0002_0001);
    assert_eq!(e.flags, 5);
}

#[test]
fn interface_from_ffi_maps_fields() {
    let raw = RawInterface { id: 4, intf_type: 0x0200, flags: 1 };
    let i = MediaV2Interface::from_ffi(&raw);
    assert_eq!(i.id, 4);
    assert_eq!(i.intf_type, 0x0200);
    assert_eq!(i.flags, 1);
}

#[test]
fn pad_from_ffi_maps_fields() {
    let raw = pad(9, 7, 2, 1);
    let p = MediaV2Pad::from_ffi(&raw);
    assert_eq!(p.id, 9);
    assert_eq!(p.entity_id, 7);
    assert_eq!(p.flags, 2);
    assert_eq!(p.index, 1);
}

#[test]
fn link_from_ffi_maps_fields() {
    let raw = link(12, 9, 10, 3);
    let l = MediaV2Link::from_ffi(&raw);
    assert_eq!(l.id, 12);
    assert_eq!(l.source_id, 9);
    assert_eq!(l.sink_id, 10);
    assert_eq!(l.flags, 3);
}

#[test]
fn sizing_error_is_ioctl_error() {
    let r = check_sizing(Err(19));
    assert_eq!(r, Err(GetTopologyError::IoctlError(19)));
}

#[test]
fn sizing_report_passes_through() {
    let report = sizing(42, 1, 2, 3, 4);
    assert_eq!(check_sizing(Ok(report)), Ok(report));
}

#[test]
fn fetch_error_is_ioctl_error() {
    let report = sizing(10, 0, 0, 0, 0);
    let r = check_fetch(&report, Err(5));
    assert_eq!(r, Some(Err(GetTopologyError::IoctlError(5))));
}

#[test]
fn matching_versions_decode_snapshot() {
    let (report, reply) = sample_query(10);
    let t = check_fetch(&report, Ok(reply)).unwrap().unwrap();
    assert_eq!(t.topology_version, 10);
    assert_eq!(t.entities.len(), 3);
    assert_eq!(t.interfaces.len(), 0);
    assert_eq!(t.pads.len(), 2);
    assert_eq!(t.links.len(), 1);
    assert_eq!(t.entities[0].name, "sensor");
    assert_eq!(t.entities[2].id, 3);
    assert_eq!(t.pads[1].entity_id, 2);
    assert_eq!(t.links[0].source_id, 10);
    assert_eq!(t.links[0].sink_id, 11);
}

#[test]
fn snapshot_cross_references_resolve() {
    let (report, reply) = sample_query(10);
    let t = check_fetch(&report, Ok(reply)).unwrap().unwrap();
    for p in &t.pads {
        assert!(t.entities.iter().any(|e| e.id == p.entity_id));
    }
    for l in &t.links {
        assert!(t.pads.iter().any(|p| p.id == l.source_id));
        assert!(t.pads.iter().any(|p| p.id == l.sink_id));
    }
}

#[test]
fn version_change_is_reported() {
    let (report, reply) = sample_query(11);
    let r = check_fetch(&report, Ok(reply));
    assert_eq!(
        r,
        Some(Err(GetTopologyError::VersionChange { old_version: 10, new_version: 11 }))
    );
}

#[test]
fn decode_topology_reports_version_change() {
    let (report, reply) = sample_query(11);
    let r = decode_topology(&report, &reply);
    assert_eq!(
        r,
        Err(GetTopologyError::VersionChange { old_version: 10, new_version: 11 })
    );
}

#[test]
fn empty_counts_give_empty_snapshot() {
    let report = sizing(3, 0, 0, 0, 0);
    let reply = FetchReply {
        topology_version: 3,
        entities: vec![],
        interfaces: vec![],
        pads: vec![],
        links: vec![],
    };
    let t = check_fetch(&report, Ok(reply)).unwrap().unwrap();
    assert_eq!(t.topology_version, 3);
    assert!(t.entities.is_empty());
    assert!(t.interfaces.is_empty());
    assert!(t.pads.is_empty());
    assert!(t.links.is_empty());
}

#[test]
fn bad_entity_name_is_reported() {
    let (report, mut reply) = sample_query(10);
    reply.entities[1].name = [b'z'; 64];
    assert_eq!(check_fetch(&report, Ok(reply)), None);
}
