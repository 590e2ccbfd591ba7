//! The platform information a process computes once: the cluster map and the
//! cluster clocks, each with its own outcome, and the per-core frequency
//! lookup built on them.

use vstd::prelude::*;
use crate::decode::PropertyDictionary;
use crate::frequency::{
    is_pmgr, lemma_no_pmgr_leaves_clocks_unknown, resolution_of, unknown_pair, FrequencyPair,
};
use crate::naming::{decimal_u32, hardware_core_id, hardware_core_id_of, parse_core_index};
use crate::status::RegistryError;
use crate::topology::{ClusterMap, ClusterTag};

verus! {

/// The frequency reported for a core in cluster `tag` (`None` when the core is
/// not in the map): the cluster's clock when it is known, otherwise the
/// frequency the operating system reports for the core. Values are cut to
/// 32 bits.
pub open spec fn frequency_for(tag: Option<ClusterTag>, pair: FrequencyPair, os_frequency: u64) -> u32 {
    let chosen: u64 = match tag {
        Some(ClusterTag::Efficiency) => pair.efficiency,
        Some(ClusterTag::Performance) => pair.performance,
        _ => 0,
    };
    if chosen != 0 {
        chosen as u32
    } else {
        os_frequency as u32
    }
}

/// The cluster recorded for `core` in `m`, if any.
pub open spec fn tag_in(m: Map<u32, ClusterTag>, core: u32) -> Option<ClusterTag> {
    if m.contains_key(core) {
        Some(m[core])
    } else {
        None
    }
}

/// The frequency of the logical core named `name` whose operating-system
/// frequency is `os_frequency`, given both outcomes: a failed clock
/// resolution is reported first, then a failed classification; a name that is
/// not a decimal index gets the operating-system frequency.
pub open spec fn core_frequency_of(
    clusters: Result<Map<u32, ClusterTag>, RegistryError>,
    frequencies: Result<FrequencyPair, RegistryError>,
    name: Seq<char>,
    os_frequency: u64,
) -> Result<u32, RegistryError> {
    match frequencies {
        Err(e) => Err(e),
        Ok(pair) => match clusters {
            Err(e) => Err(e),
            Ok(m) => Ok(
                match decimal_u32(name) {
                    Some(index) => frequency_for(tag_in(m, hardware_core_id(index)), pair, os_frequency),
                    None => os_frequency as u32,
                },
            ),
        },
    }
}

/// The view of a cluster-map outcome.
pub open spec fn clusters_view(c: Result<ClusterMap, RegistryError>) -> Result<Map<u32, ClusterTag>, RegistryError> {
    match c {
        Ok(m) => Ok(m@),
        Err(e) => Err(e),
    }
}

/// The frequency of one core from its cluster: the cluster's clock when it is
/// known, else `os_frequency`.
pub fn select_frequency(tag: Option<ClusterTag>, pair: FrequencyPair, os_frequency: u64) -> (r: u32)
    ensures
        r == frequency_for(tag, pair, os_frequency),
{
    let chosen: u64 = match tag {
        Some(ClusterTag::Efficiency) => pair.efficiency,
        Some(ClusterTag::Performance) => pair.performance,
        _ => 0,
    };
    if chosen != 0 {
        chosen as u32
    } else {
        os_frequency as u32
    }
}

/// The outcomes of cluster classification and clock resolution, computed once
/// and never recomputed: a failure stays, and is handed to every caller.
pub struct PlatformInfo {
    clusters: Result<ClusterMap, RegistryError>,
    frequencies: Result<FrequencyPair, RegistryError>,
}

impl View for PlatformInfo {
    type V = (Result<Map<u32, ClusterTag>, RegistryError>, Result<FrequencyPair, RegistryError>);

    closed spec fn view(&self) -> Self::V {
        (clusters_view(self.clusters), self.frequencies)
    }
}

impl PlatformInfo {
    /// Holds the two outcomes, each as it came.
    pub fn new(
        clusters: Result<ClusterMap, RegistryError>,
        frequencies: Result<FrequencyPair, RegistryError>,
    ) -> (r: PlatformInfo)
        ensures
            r@.0 == clusters_view(clusters),
            r@.1 == frequencies,
    {
        PlatformInfo { clusters, frequencies }
    }

    /// The cluster map, or the error that classification failed with.
    pub fn clusters(&self) -> (r: Result<&ClusterMap, RegistryError>)
        ensures
            match r {
                Ok(m) => self@.0 == Ok::<Map<u32, ClusterTag>, RegistryError>(m@),
                Err(e) => self@.0 == Err::<Map<u32, ClusterTag>, RegistryError>(e),
            },
    {
        match &self.clusters {
            Ok(m) => Ok(m),
            Err(e) => Err(*e),
        }
    }

    /// The cluster clocks, or the error that resolution failed with.
    pub fn frequencies(&self) -> (r: Result<FrequencyPair, RegistryError>)
        ensures
            r == self@.1,
    {
        self.frequencies
    }

    /// The frequency, in MHz, of the logical core whose platform-reported name
    /// is `name` and whose operating-system frequency is `os_frequency`.
    pub fn core_frequency(&self, name: &str, os_frequency: u64) -> (r: Result<u32, RegistryError>)
        ensures
            r == core_frequency_of(self@.0, self@.1, name@, os_frequency),
    {
        let pair = match self.frequencies {
            Ok(p) => p,
            Err(e) => return Err(e),
        };
        let map = match &self.clusters {
            Ok(m) => m,
            Err(e) => return Err(*e),
        };
        match parse_core_index(name) {
            Some(index) => {
                let tag = map.get(hardware_core_id_of(index));
                Ok(select_frequency(tag, pair, os_frequency))
            },
            None => Ok(os_frequency as u32),
        }
    }
}

/// A traversal that meets no power-management entry (one that meets no entry
/// at all among them) leaves both clocks unknown, and then no core is given a
/// clock of 0: whatever the cluster map holds, every core gets the frequency
/// the operating system reports.
pub proof fn lemma_no_pmgr_falls_back_to_os_frequency(
    entries: Seq<Result<PropertyDictionary, RegistryError>>,
    clock_hz: u32,
    clusters: Map<u32, ClusterTag>,
    name: Seq<char>,
    os_frequency: u64,
)
    requires
        forall|i: int| 0 <= i < entries.len() ==> (#[trigger] entries[i] matches Ok(d) && !is_pmgr(d@)),
    ensures
        resolution_of(entries, clock_hz) == Ok::<FrequencyPair, RegistryError>(unknown_pair()),
        core_frequency_of(Ok(clusters), resolution_of(entries, clock_hz), name, os_frequency)
            == Ok::<u32, RegistryError>(os_frequency as u32),
{
    lemma_no_pmgr_leaves_clocks_unknown(entries, clock_hz);
}

/// Failures reach every caller as they were raised: a failed clock resolution
/// is what every frequency lookup returns, and a failed classification is what
/// the cluster map reads as and, when the clocks were resolved, what every
/// frequency lookup returns.
pub proof fn lemma_failures_reach_every_caller(
    clusters: Result<ClusterMap, RegistryError>,
    frequencies: Result<FrequencyPair, RegistryError>,
    name: Seq<char>,
    os_frequency: u64,
)
    ensures
        frequencies matches Err(e) ==> core_frequency_of(clusters_view(clusters), frequencies, name, os_frequency)
            == Err::<u32, RegistryError>(e),
        clusters matches Err(e) ==> clusters_view(clusters) == Err::<Map<u32, ClusterTag>, RegistryError>(e),
        clusters matches Err(e) ==> (frequencies is Ok ==> core_frequency_of(
            clusters_view(clusters),
            frequencies,
            name,
            os_frequency,
        ) == Err::<u32, RegistryError>(e)),
{
}

} // verus!
