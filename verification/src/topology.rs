//! The topology snapshot query: value types, decoding, and the
//! version-consistency protocol.
//!
//! A topology query is two kernel round-trips.  The sizing round-trip
//! reports element counts and a version stamp; the caller allocates from
//! those counts and issues the data round-trip, which fills the buffers and
//! reports its own version stamp.  Only when the two stamps agree may the
//! buffers be read: a changed stamp means the graph mutated between the
//! round-trips and the buffers are a torn read.  The functions here carry
//! out every decision of that protocol on plain values; the caller only
//! performs the round-trips.

use vstd::prelude::*;

use crate::cstr::{c_str_to_str, cstr_decodes_to, cstr_ok, try_c_str_to_str};
use crate::raw::{FetchReply, RawEntity, RawInterface, RawLink, RawPad, SizingReport};

verus! {

/// A node of the device graph.
#[derive(Debug, PartialEq, Eq)]
pub struct MediaV2Entity {
    pub id: u32,
    pub name: String,
    pub function: u32,
    pub flags: u32,
}

/// A device-node association that an interface may carry.
#[derive(Debug, Clone, Copy, PartialEq, Eq)]
pub struct MediaV2IntfDevnode {
    pub major: u32,
    pub minor: u32,
}

/// An external-facing control surface of the device.
#[derive(Debug, Clone, Copy, PartialEq, Eq)]
pub struct MediaV2Interface {
    pub id: u32,
    pub intf_type: u32,
    pub flags: u32,
}

/// An attachment point on an entity.
#[derive(Debug, Clone, Copy, PartialEq, Eq)]
pub struct MediaV2Pad {
    pub id: u32,
    pub entity_id: u32,
    pub flags: u32,
    pub index: u32,
}

/// A directed edge between two pads.
#[derive(Debug, Clone, Copy, PartialEq, Eq)]
pub struct MediaV2Link {
    pub id: u32,
    pub source_id: u32,
    pub sink_id: u32,
    pub flags: u32,
}

/// A self-consistent snapshot of the device graph, taken under one
/// unchanged topology version.
#[derive(Debug, PartialEq, Eq)]
pub struct MediaV2Topology {
    pub topology_version: u64,
    pub entities: Vec<MediaV2Entity>,
    pub interfaces: Vec<MediaV2Interface>,
    pub pads: Vec<MediaV2Pad>,
    pub links: Vec<MediaV2Link>,
}

/// How a topology query fails: either round-trip reported an operating
/// system error code, or the version stamps of the two round-trips differ.
#[derive(Debug, Clone, Copy, PartialEq, Eq)]
pub enum GetTopologyError {
    IoctlError(i32),
    VersionChange { old_version: u64, new_version: u64 },
}

/// Relates one raw entity record to its decoded form.
pub open spec fn entity_decodes(raw: RawEntity, e: MediaV2Entity) -> bool {
    &&& e.id == raw.id
    &&& cstr_decodes_to(raw.name@, e.name@)
    &&& e.function == raw.function
    &&& e.flags == raw.flags
}

/// Relates one raw interface record to its decoded form.
pub open spec fn interface_decodes(raw: RawInterface, i: MediaV2Interface) -> bool {
    &&& i.id == raw.id
    &&& i.intf_type == raw.intf_type
    &&& i.flags == raw.flags
}

/// Relates one raw pad record to its decoded form.
pub open spec fn pad_decodes(raw: RawPad, p: MediaV2Pad) -> bool {
    &&& p.id == raw.id
    &&& p.entity_id == raw.entity_id
    &&& p.flags == raw.flags
    &&& p.index == raw.index
}

/// Relates one raw link record to its decoded form.
pub open spec fn link_decodes(raw: RawLink, l: MediaV2Link) -> bool {
    &&& l.id == raw.id
    &&& l.source_id == raw.source_id
    &&& l.sink_id == raw.sink_id
    &&& l.flags == raw.flags
}

impl MediaV2Entity {
    /// Decode one kernel entity record.  The driver contract makes the name
    /// field well-formed; a record that breaks it is ruled out here.
    pub fn from_ffi(entity: &RawEntity) -> (r: MediaV2Entity)
        requires
            cstr_ok(entity.name@),
        ensures
            entity_decodes(*entity, r),
    {
        MediaV2Entity {
            name: c_str_to_str(entity.name.as_slice()),
            id: entity.id,
            flags: entity.flags,
            function: entity.function,
        }
    }
}

impl MediaV2Interface {
    /// Decode one kernel interface record.
    pub fn from_ffi(intf: &RawInterface) -> (r: MediaV2Interface)
        ensures
            interface_decodes(*intf, r),
    {
        MediaV2Interface { id: intf.id, flags: intf.flags, intf_type: intf.intf_type }
    }
}

impl MediaV2Pad {
    /// Decode one kernel pad record.
    pub fn from_ffi(pad: &RawPad) -> (r: MediaV2Pad)
        ensures
            pad_decodes(*pad, r),
    {
        MediaV2Pad { id: pad.id, entity_id: pad.entity_id, flags: pad.flags, index: pad.index }
    }
}

impl MediaV2Link {
    /// Decode one kernel link record.
    pub fn from_ffi(link: &RawLink) -> (r: MediaV2Link)
        ensures
            link_decodes(*link, r),
    {
        MediaV2Link { id: link.id, source_id: link.source_id, sink_id: link.sink_id, flags: link.flags }
    }
}

/// True when every entity record's name field is NUL-terminated valid
/// UTF-8, as the driver contract guarantees.
pub open spec fn entity_names_ok(entities: Seq<RawEntity>) -> bool {
    forall|i: int| 0 <= i < entities.len() ==> cstr_ok(#[trigger] entities[i].name@)
}

/// True when the data round-trip handed back exactly as many records of
/// each collection as the sizing round-trip reported.  The kernel keeps
/// this whenever the version stamp is unchanged.
pub open spec fn reply_matches_sizing(sizing: SizingReport, reply: FetchReply) -> bool {
    &&& reply.entities@.len() == sizing.num_entities as int
    &&& reply.interfaces@.len() == sizing.num_interfaces as int
    &&& reply.pads@.len() == sizing.num_pads as int
    &&& reply.links@.len() == sizing.num_links as int
}

/// Relates the two round-trips' raw data to a decoded snapshot: the version
/// stamp carries over, each collection's length is exactly the count the
/// sizing round-trip reported, and each element decodes in order.
pub open spec fn topology_decodes(
    sizing: SizingReport,
    reply: FetchReply,
    t: MediaV2Topology,
) -> bool {
    &&& reply_matches_sizing(sizing, reply)
    &&& t.topology_version == sizing.topology_version
    &&& t.entities@.len() == sizing.num_entities as int
    &&& t.interfaces@.len() == sizing.num_interfaces as int
    &&& t.pads@.len() == sizing.num_pads as int
    &&& t.links@.len() == sizing.num_links as int
    &&& forall|i: int| 0 <= i < t.entities@.len() ==> entity_decodes(
        reply.entities@[i],
        #[trigger] t.entities@[i],
    )
    &&& forall|i: int| 0 <= i < t.interfaces@.len() ==> interface_decodes(
        reply.interfaces@[i],
        #[trigger] t.interfaces@[i],
    )
    &&& forall|i: int| 0 <= i < t.pads@.len() ==> pad_decodes(
        reply.pads@[i],
        #[trigger] t.pads@[i],
    )
    &&& forall|i: int| 0 <= i < t.links@.len() ==> link_decodes(
        reply.links@[i],
        #[trigger] t.links@[i],
    )
}

/// True when some raw entity record carries the given id.
pub open spec fn raw_entity_id_exists(entities: Seq<RawEntity>, id: u32) -> bool {
    exists|j: int| 0 <= j < entities.len() && #[trigger] entities[j].id == id
}

/// True when some raw pad record carries the given id.
pub open spec fn raw_pad_id_exists(pads: Seq<RawPad>, id: u32) -> bool {
    exists|j: int| 0 <= j < pads.len() && #[trigger] pads[j].id == id
}

/// True when the raw collections cross-reference one another consistently:
/// every pad names an entity of the same reply, every link names pads of
/// it.  The kernel keeps this for the collections of one data round-trip
/// whose version stamp matched the sizing round-trip's.
pub open spec fn raw_refs_resolve(
    entities: Seq<RawEntity>,
    pads: Seq<RawPad>,
    links: Seq<RawLink>,
) -> bool {
    &&& forall|i: int| 0 <= i < pads.len() ==> raw_entity_id_exists(
        entities,
        (#[trigger] pads[i]).entity_id,
    )
    &&& forall|i: int| 0 <= i < links.len() ==> raw_pad_id_exists(
        pads,
        (#[trigger] links[i]).source_id,
    )
    &&& forall|i: int| 0 <= i < links.len() ==> raw_pad_id_exists(
        pads,
        (#[trigger] links[i]).sink_id,
    )
}

/// True when some decoded entity carries the given id.
pub open spec fn entity_id_exists(entities: Seq<MediaV2Entity>, id: u32) -> bool {
    exists|j: int| 0 <= j < entities.len() && #[trigger] entities[j].id == id
}

/// True when some decoded pad carries the given id.
pub open spec fn pad_id_exists(pads: Seq<MediaV2Pad>, id: u32) -> bool {
    exists|j: int| 0 <= j < pads.len() && #[trigger] pads[j].id == id
}

/// True when every cross-reference of the snapshot resolves within the
/// snapshot itself: each pad's `entity_id` is the id of one of its
/// entities, and each link's `source_id` and `sink_id` are ids of its pads.
pub open spec fn snapshot_refs_resolve(t: MediaV2Topology) -> bool {
    &&& forall|i: int| 0 <= i < t.pads@.len() ==> entity_id_exists(
        t.entities@,
        (#[trigger] t.pads@[i]).entity_id,
    )
    &&& forall|i: int| 0 <= i < t.links@.len() ==> pad_id_exists(
        t.pads@,
        (#[trigger] t.links@[i]).source_id,
    )
    &&& forall|i: int| 0 <= i < t.links@.len() ==> pad_id_exists(
        t.pads@,
        (#[trigger] t.links@[i]).sink_id,
    )
}

/// Law: a snapshot decoded from raw collections whose cross-references
/// resolve has resolving cross-references itself -- every `Pad.entity_id`
/// is the id of an entity of the same snapshot, and every `Link.source_id`
/// and `Link.sink_id` is the id of a pad of it.
pub proof fn lemma_snapshot_refs_resolve(
    sizing: SizingReport,
    reply: FetchReply,
    t: MediaV2Topology,
)
    requires
        topology_decodes(sizing, reply, t),
        raw_refs_resolve(reply.entities@, reply.pads@, reply.links@),
    ensures
        snapshot_refs_resolve(t),
{
    assert forall|i: int| 0 <= i < t.pads@.len() implies entity_id_exists(
        t.entities@,
        t.pads@[i].entity_id,
    ) by {
        assert(pad_decodes(reply.pads@[i], t.pads@[i]));
        assert(raw_entity_id_exists(reply.entities@, reply.pads@[i].entity_id));
        let j = choose|j: int|
            0 <= j < reply.entities@.len() && #[trigger] reply.entities@[j].id
                == reply.pads@[i].entity_id;
        assert(entity_decodes(reply.entities@[j], t.entities@[j]));
        assert(t.entities@[j].id == t.pads@[i].entity_id);
    }
    assert forall|i: int| 0 <= i < t.links@.len() implies pad_id_exists(
        t.pads@,
        t.links@[i].source_id,
    ) by {
        assert(link_decodes(reply.links@[i], t.links@[i]));
        assert(raw_pad_id_exists(reply.pads@, reply.links@[i].source_id));
        let j = choose|j: int|
            0 <= j < reply.pads@.len() && #[trigger] reply.pads@[j].id
                == reply.links@[i].source_id;
        assert(pad_decodes(reply.pads@[j], t.pads@[j]));
        assert(t.pads@[j].id == t.links@[i].source_id);
    }
    assert forall|i: int| 0 <= i < t.links@.len() implies pad_id_exists(
        t.pads@,
        t.links@[i].sink_id,
    ) by {
        assert(link_decodes(reply.links@[i], t.links@[i]));
        assert(raw_pad_id_exists(reply.pads@, reply.links@[i].sink_id));
        let j = choose|j: int|
            0 <= j < reply.pads@.len() && #[trigger] reply.pads@[j].id == reply.links@[i].sink_id;
        assert(pad_decodes(reply.pads@[j], t.pads@[j]));
        assert(t.pads@[j].id == t.links@[i].sink_id);
    }
}

/// Classify the outcome of the sizing round-trip: a report is taken as is,
/// an operating system error code fails the whole operation, unretried.
pub fn check_sizing(outcome: Result<SizingReport, i32>) -> (r: Result<
    SizingReport,
    GetTopologyError,
>)
    ensures
        outcome matches Ok(s) ==> r == Ok::<SizingReport, GetTopologyError>(s),
        outcome matches Err(e) ==> r == Err::<SizingReport, GetTopologyError>(
            GetTopologyError::IoctlError(e),
        ),
{
    match outcome {
        Ok(s) => Ok(s),
        Err(e) => Err(GetTopologyError::IoctlError(e)),
    }
}

/// Carry out the consistency check and decode of a topology query, given
/// the sizing report and the data round-trip's reply.
///
/// When the version stamps differ the reply is a torn read: it is
/// discarded unread and the two stamps are reported.  When they agree,
/// every record is decoded in order into a snapshot whose collection
/// lengths are exactly the counts of the sizing report, and a reply whose
/// cross-references resolve yields a snapshot whose own cross-references
/// resolve.
pub fn decode_topology(sizing: &SizingReport, reply: &FetchReply) -> (r: Result<
    MediaV2Topology,
    GetTopologyError,
>)
    requires
        reply.topology_version == sizing.topology_version ==> reply_matches_sizing(
            *sizing,
            *reply,
        ),
        reply.topology_version == sizing.topology_version ==> entity_names_ok(reply.entities@),
    ensures
        reply.topology_version != sizing.topology_version ==> r == Err::<
            MediaV2Topology,
            GetTopologyError,
        >(
            (GetTopologyError::VersionChange {
                old_version: sizing.topology_version,
                new_version: reply.topology_version,
            }),
        ),
        reply.topology_version == sizing.topology_version ==> (r matches Ok(t)
            && topology_decodes(*sizing, *reply, t)),
        reply.topology_version == sizing.topology_version && raw_refs_resolve(
            reply.entities@,
            reply.pads@,
            reply.links@,
        ) ==> (r matches Ok(t) && snapshot_refs_resolve(t)),
{
    if reply.topology_version != sizing.topology_version {
        return Err(
            GetTopologyError::VersionChange {
                old_version: sizing.topology_version,
                new_version: reply.topology_version,
            },
        );
    }
    let mut entities: Vec<MediaV2Entity> = Vec::new();
    let mut i: usize = 0;
    while i < reply.entities.len()
        invariant
            i <= reply.entities@.len(),
            entities@.len() == i as int,
            entity_names_ok(reply.entities@),
            forall|k: int| 0 <= k < i ==> entity_decodes(
                reply.entities@[k],
                #[trigger] entities@[k],
            ),
        decreases reply.entities@.len() - i,
    {
        entities.push(MediaV2Entity::from_ffi(&reply.entities[i]));
        i += 1;
    }
    let mut interfaces: Vec<MediaV2Interface> = Vec::new();
    let mut i: usize = 0;
    while i < reply.interfaces.len()
        invariant
            i <= reply.interfaces@.len(),
            interfaces@.len() == i as int,
            forall|k: int| 0 <= k < i ==> interface_decodes(
                reply.interfaces@[k],
                #[trigger] interfaces@[k],
            ),
        decreases reply.interfaces@.len() - i,
    {
        interfaces.push(MediaV2Interface::from_ffi(&reply.interfaces[i]));
        i += 1;
    }
    let mut pads: Vec<MediaV2Pad> = Vec::new();
    let mut i: usize = 0;
    while i < reply.pads.len()
        invariant
            i <= reply.pads@.len(),
            pads@.len() == i as int,
            forall|k: int| 0 <= k < i ==> pad_decodes(reply.pads@[k], #[trigger] pads@[k]),
        decreases reply.pads@.len() - i,
    {
        pads.push(MediaV2Pad::from_ffi(&reply.pads[i]));
        i += 1;
    }
    let mut links: Vec<MediaV2Link> = Vec::new();
    let mut i: usize = 0;
    while i < reply.links.len()
        invariant
            i <= reply.links@.len(),
            links@.len() == i as int,
            forall|k: int| 0 <= k < i ==> link_decodes(reply.links@[k], #[trigger] links@[k]),
        decreases reply.links@.len() - i,
    {
        links.push(MediaV2Link::from_ffi(&reply.links[i]));
        i += 1;
    }
    let t = MediaV2Topology {
        topology_version: reply.topology_version,
        entities,
        interfaces,
        pads,
        links,
    };
    proof {
        assert(topology_decodes(*sizing, *reply, t));
        if raw_refs_resolve(reply.entities@, reply.pads@, reply.links@) {
            lemma_snapshot_refs_resolve(*sizing, *reply, t);
        }
    }
    Ok(t)
}

/// Classify the outcome of the data round-trip and finish the query.
///
/// An operating system error code fails the operation; a changed version
/// stamp discards the reply and reports both stamps; a matching stamp
/// decodes the reply into a snapshot.  `None` reports a reply that breaks
/// the driver contract: version stamps agree, yet some entity name field
/// is not NUL-terminated valid UTF-8.
pub fn check_fetch(sizing: &SizingReport, outcome: Result<FetchReply, i32>) -> (r: Option<
    Result<MediaV2Topology, GetTopologyError>,
>)
    requires
        outcome matches Ok(reply) ==> (reply.topology_version == sizing.topology_version
            ==> reply_matches_sizing(*sizing, reply)),
    ensures
        outcome matches Err(e) ==> r == Some(
            Err::<MediaV2Topology, GetTopologyError>(GetTopologyError::IoctlError(e)),
        ),
        outcome matches Ok(reply) ==> (reply.topology_version != sizing.topology_version ==> r
            == Some(
            Err::<MediaV2Topology, GetTopologyError>(
                (GetTopologyError::VersionChange {
                    old_version: sizing.topology_version,
                    new_version: reply.topology_version,
                }),
            ),
        )),
        outcome matches Ok(reply) ==> ((reply.topology_version == sizing.topology_version
            && entity_names_ok(reply.entities@)) ==> (r matches Some(res) && res matches Ok(t)
            && topology_decodes(*sizing, reply, t))),
        outcome matches Ok(reply) ==> ((reply.topology_version == sizing.topology_version
            && entity_names_ok(reply.entities@) && raw_refs_resolve(
            reply.entities@,
            reply.pads@,
            reply.links@,
        )) ==> (r matches Some(res) && res matches Ok(t) && snapshot_refs_resolve(t))),
        (r is None) <==> (outcome matches Ok(reply) && reply.topology_version
            == sizing.topology_version && !entity_names_ok(reply.entities@)),
{
    match outcome {
        Err(e) => Some(Err(GetTopologyError::IoctlError(e))),
        Ok(reply) => {
            if reply.topology_version != sizing.topology_version {
                return Some(
                    Err(
                        GetTopologyError::VersionChange {
                            old_version: sizing.topology_version,
                            new_version: reply.topology_version,
                        },
                    ),
                );
            }
            let mut i: usize = 0;
            while i < reply.entities.len()
                invariant
                    outcome == Ok::<FetchReply, i32>(reply),
                    reply.topology_version == sizing.topology_version,
                    i <= reply.entities@.len(),
                    forall|k: int| 0 <= k < i ==> cstr_ok(#[trigger] reply.entities@[k].name@),
                decreases reply.entities@.len() - i,
            {
                if try_c_str_to_str(reply.entities[i].name.as_slice()).is_none() {
                    proof {
                        assert(!cstr_ok(reply.entities@[i as int].name@));
                    }
                    return None;
                }
                i += 1;
            }
            proof {
                assert(entity_names_ok(reply.entities@));
            }
            Some(decode_topology(sizing, &reply))
        },
    }
}

} // verus!
