//! Cluster classification: which CPU cores belong to the performance cluster
//! and which to the efficiency cluster, read from the "cpu" devices of the
//! hardware registry.

use std::collections::HashMap;
use vstd::prelude::*;
use crate::decode::{
    bytes_property, c_text_equals, is_c_text, le_u32, read_u32_le, PropertyDictionary,
    PropertyValue,
};
use crate::status::RegistryError;

verus! {

broadcast use vstd::std_specs::hash::group_hash_axioms;

/// The cluster a core belongs to.
#[derive(Clone, Copy, Debug, PartialEq, Eq, Structural)]
pub enum ClusterTag {
    Performance,
    Efficiency,
    Unknown,
}

/// The text of a "device_type" buffer that marks a CPU core.
pub open spec fn cpu_type_text() -> Seq<u8> {
    seq![99u8, 112u8, 117u8]
}

/// The tag a "cluster-type" buffer denotes: text `E` is the efficiency
/// cluster, `P` the performance cluster, anything else is unknown. The text
/// ends at the buffer's NUL terminator.
pub open spec fn cluster_tag_of(b: Seq<u8>) -> ClusterTag {
    if is_c_text(b, seq![69u8]) {
        ClusterTag::Efficiency
    } else if is_c_text(b, seq![80u8]) {
        ClusterTag::Performance
    } else {
        ClusterTag::Unknown
    }
}

/// The core id and cluster tag that a device's properties describe: present
/// when "device_type" is a byte buffer with text `cpu`, "cluster-type" is a
/// byte buffer, and "cpu-id" is a byte buffer of at least four bytes.
pub open spec fn cpu_record(d: Map<Seq<char>, PropertyValue>) -> Option<(u32, ClusterTag)> {
    match (
        bytes_property(d, "device_type"@),
        bytes_property(d, "cluster-type"@),
        bytes_property(d, "cpu-id"@),
    ) {
        (Some(t), Some(c), Some(id)) => if is_c_text(t, cpu_type_text()) && id.len() >= 4 {
            Some((le_u32(id) as u32, cluster_tag_of(c)))
        } else {
            None
        },
        _ => None,
    }
}

/// The record of one traversed registry entry; an entry whose properties
/// could not be fetched describes nothing.
pub open spec fn entry_record(e: Result<PropertyDictionary, RegistryError>) -> Option<(u32, ClusterTag)> {
    match e {
        Ok(d) => cpu_record(d@),
        Err(_) => None,
    }
}

/// The cluster map that the entries describe, taken in order; a later record
/// of a core id replaces an earlier one.
pub open spec fn cluster_map_of(entries: Seq<Result<PropertyDictionary, RegistryError>>) -> Map<u32, ClusterTag>
    decreases entries.len(),
{
    if entries.len() == 0 {
        Map::empty()
    } else {
        let m = cluster_map_of(entries.drop_last());
        match entry_record(entries.last()) {
            Some((id, tag)) => m.insert(id, tag),
            None => m,
        }
    }
}

fn cluster_tag_from(b: &[u8]) -> (r: ClusterTag)
    ensures
        r == cluster_tag_of(b@),
{
    let e: [u8; 1] = [69u8];
    let p: [u8; 1] = [80u8];
    assert(e@ =~= seq![69u8]);
    assert(p@ =~= seq![80u8]);
    if c_text_equals(b, e.as_slice()) {
        ClusterTag::Efficiency
    } else if c_text_equals(b, p.as_slice()) {
        ClusterTag::Performance
    } else {
        ClusterTag::Unknown
    }
}

/// Reads the core id and cluster tag of a "cpu" device; `None` for any other
/// device, or one whose properties are missing or of the wrong kind.
pub fn read_cpu_record(props: &PropertyDictionary) -> (r: Option<(u32, ClusterTag)>)
    ensures
        r == cpu_record(props@),
{
    let t = match props.bytes("device_type") {
        Some(t) => t,
        None => return None,
    };
    let c = match props.bytes("cluster-type") {
        Some(c) => c,
        None => return None,
    };
    let id = match props.bytes("cpu-id") {
        Some(id) => id,
        None => return None,
    };
    let cpu: [u8; 3] = [99u8, 112u8, 117u8];
    assert(cpu@ =~= cpu_type_text());
    if !c_text_equals(t, cpu.as_slice()) {
        return None;
    }
    match read_u32_le(id) {
        Some(core) => Some((core, cluster_tag_from(c))),
        None => None,
    }
}

/// The cluster of each core id, as the "cpu" devices of the registry report
/// it. Keys are the hardware core ids, counted from 0.
pub struct ClusterMap {
    tags: HashMap<u32, ClusterTag>,
}

impl View for ClusterMap {
    type V = Map<u32, ClusterTag>;

    closed spec fn view(&self) -> Map<u32, ClusterTag> {
        self.tags@
    }
}

impl ClusterMap {
    /// A map with no cores.
    pub fn new() -> (r: ClusterMap)
        ensures
            r@ == Map::<u32, ClusterTag>::empty(),
    {
        ClusterMap { tags: HashMap::new() }
    }

    /// Sets the cluster of `core`, replacing what was recorded for it.
    pub fn insert(&mut self, core: u32, tag: ClusterTag)
        ensures
            final(self)@ == old(self)@.insert(core, tag),
    {
        self.tags.insert(core, tag);
    }

    /// The cluster recorded for `core`, if any.
    pub fn get(&self, core: u32) -> (r: Option<ClusterTag>)
        ensures
            r is Some <==> self@.contains_key(core),
            r matches Some(t) ==> t == self@[core],
    {
        match self.tags.get(&core) {
            Some(t) => Some(*t),
            None => None,
        }
    }

    /// The number of cores recorded.
    pub fn len(&self) -> (r: usize)
        ensures
            r == self@.len(),
    {
        self.tags.len()
    }

    /// Takes in one traversed registry entry: a "cpu" device records its core
    /// id and cluster; any other entry, or one whose properties could not be
    /// fetched, leaves the map as it was.
    pub fn record(&mut self, entry: &Result<PropertyDictionary, RegistryError>)
        ensures
            final(self)@ == match entry_record(*entry) {
                Some((id, tag)) => old(self)@.insert(id, tag),
                None => old(self)@,
            },
    {
        if let Ok(props) = entry {
            if let Some((core, tag)) = read_cpu_record(props) {
                self.insert(core, tag);
            }
        }
    }
}

/// Classifies the entries of one traversal of the "IOPlatformDevice" class, in
/// the order the registry produced them.
pub fn classify(entries: &Vec<Result<PropertyDictionary, RegistryError>>) -> (r: ClusterMap)
    ensures
        r@ == cluster_map_of(entries@),
{
    let mut map = ClusterMap::new();
    let mut i: usize = 0;
    while i < entries.len()
        invariant
            i <= entries@.len(),
            map@ == cluster_map_of(entries@.take(i as int)),
        decreases entries@.len() - i,
    {
        assert(entries@.take(i + 1).drop_last() =~= entries@.take(i as int));
        map.record(&entries[i]);
        i = i + 1;
    }
    assert(entries@.take(i as int) =~= entries@);
    map
}

/// The entry is a "cpu" record of core id `core`.
pub open spec fn records_core(e: Result<PropertyDictionary, RegistryError>, core: u32) -> bool {
    match entry_record(e) {
        Some((id, _)) => id == core,
        None => false,
    }
}

/// The cluster tag a "cpu" record carries.
pub open spec fn record_tag(e: Result<PropertyDictionary, RegistryError>) -> ClusterTag {
    match entry_record(e) {
        Some((_, tag)) => tag,
        None => ClusterTag::Unknown,
    }
}

/// Classification gives each core id exactly one tag, determined by the
/// entries alone: an id is in the map exactly when some entry records it, and
/// its tag is the one carried by the last entry that records it.
pub proof fn lemma_cluster_map_is_last_record(entries: Seq<Result<PropertyDictionary, RegistryError>>, core: u32)
    ensures
        cluster_map_of(entries).contains_key(core) <==> (exists|i: int|
            0 <= i < entries.len() && #[trigger] records_core(entries[i], core)),
        forall|i: int|
            0 <= i < entries.len() && #[trigger] records_core(entries[i], core) && (forall|j: int|
                i < j < entries.len() ==> !#[trigger] records_core(entries[j], core))
                ==> cluster_map_of(entries)[core] == record_tag(entries[i]),
    decreases entries.len(),
{
    if entries.len() > 0 {
        let pre = entries.drop_last();
        let n = entries.len() - 1;
        lemma_cluster_map_is_last_record(pre, core);
        assert forall|i: int| 0 <= i < n implies entries[i] == pre[i] by {}
        if records_core(entries[n], core) {
            assert forall|i: int|
                0 <= i < entries.len() && #[trigger] records_core(entries[i], core) && (forall|j: int|
                    i < j < entries.len() ==> !#[trigger] records_core(entries[j], core))
                implies cluster_map_of(entries)[core] == record_tag(entries[i]) by {
                if i < n {
                    assert(!records_core(entries[n], core));
                }
            }
        } else {
            if cluster_map_of(entries).contains_key(core) {
                let i = choose|i: int| 0 <= i < pre.len() && #[trigger] records_core(pre[i], core);
                assert(records_core(entries[i], core));
            }
            if exists|i: int| 0 <= i < entries.len() && #[trigger] records_core(entries[i], core) {
                let i = choose|i: int| 0 <= i < entries.len() && #[trigger] records_core(entries[i], core);
                assert(records_core(pre[i], core));
            }
            assert forall|i: int|
                0 <= i < entries.len() && #[trigger] records_core(entries[i], core) && (forall|j: int|
                    i < j < entries.len() ==> !#[trigger] records_core(entries[j], core))
                implies cluster_map_of(entries)[core] == record_tag(entries[i]) by {
                assert(records_core(pre[i], core));
                assert forall|j: int| i < j < pre.len() implies !#[trigger] records_core(pre[j], core) by {
                    assert(!records_core(entries[j], core));
                }
            }
        }
    }
}

} // verus!
