use hw_telemetry::frequency::{resolve, FrequencyPair};
use hw_telemetry::platform::{select_frequency, PlatformInfo};
use hw_telemetry::status::{RegistryError, RegistryStage};
use hw_telemetry::topology::{ClusterMap, ClusterTag};

fn sample_map() -> ClusterMap {
    let mut m = ClusterMap::new();
    m.insert(0, ClusterTag::Performance);
    m.insert(1, ClusterTag::Efficiency);
    m.insert(2, ClusterTag::Unknown);
    m
}

fn sample_pair() -> FrequencyPair {
    FrequencyPair { efficiency: 1000, performance: 3000 }
}

const MASTER_PORT_FAILURE: RegistryError =
    RegistryError { stage: RegistryStage::GetMasterPort, status: 4 };

#[test]
fn core_names_pick_their_cluster_clock() {
    let info = PlatformInfo::new(Ok(sample_map()), Ok(sample_pair()));
    assert_eq!(info.core_frequency("1", 2400), Ok(3000));
    assert_eq!(info.core_frequency("2", 2400), Ok(1000));
    assert_eq!(info.core_frequency("3", 2400), Ok(2400));
}

#[test]
fn index_zero_maps_to_core_zero() {
    let info = PlatformInfo::new(Ok(sample_map()), Ok(sample_pair()));
    assert_eq!(info.core_frequency("0", 2400), Ok(3000));
}

#[test]
fn missing_core_and_odd_name_fall_back() {
    let info = PlatformInfo::new(Ok(sample_map()), Ok(sample_pair()));
    assert_eq!(info.core_frequency("9", 2400), Ok(2400));
    assert_eq!(info.core_frequency("cpu1", 2400), Ok(2400));
    assert_eq!(info.core_frequency("", 2400), Ok(2400));
}

#[test]
fn unknown_clocks_fall_back_for_every_core() {
    let info = PlatformInfo::new(Ok(sample_map()), Ok(FrequencyPair { efficiency: 0, performance: 0 }));
    for name in ["0", "1", "2", "3", "x"] {
        assert_eq!(info.core_frequency(name, 2400), Ok(2400));
    }
}

#[test]
fn frequencies_are_cut_to_32_bits() {
    let info = PlatformInfo::new(Ok(sample_map()), Ok(sample_pair()));
    assert_eq!(info.core_frequency("9", (1u64 << 32) + 5), Ok(5));
    assert_eq!(select_frequency(Some(ClusterTag::Performance), FrequencyPair { efficiency: 0, performance: (1u64 << 32) + 7 }, 1), 7);
}

#[test]
fn resolution_failure_reaches_every_lookup() {
    let info = PlatformInfo::new(Ok(sample_map()), Err(MASTER_PORT_FAILURE));
    assert_eq!(info.core_frequency("1", 2400), Err(MASTER_PORT_FAILURE));
    assert_eq!(info.core_frequency("x", 2400), Err(MASTER_PORT_FAILURE));
    assert_eq!(info.frequencies(), Err(MASTER_PORT_FAILURE));
    let m = info.clusters().unwrap();
    assert_eq!(m.get(0), Some(ClusterTag::Performance));
}

#[test]
fn classification_failure_reaches_map_readers() {
    let info = PlatformInfo::new(Err(MASTER_PORT_FAILURE), Ok(sample_pair()));
    assert_eq!(info.clusters().err(), Some(MASTER_PORT_FAILURE));
    assert_eq!(info.core_frequency("1", 2400), Err(MASTER_PORT_FAILURE));
    assert_eq!(info.frequencies(), Ok(sample_pair()));
}

#[test]
fn resolution_failure_is_reported_first() {
    let match_failure = RegistryError { stage: RegistryStage::Match, status: 5 };
    let info = PlatformInfo::new(Err(match_failure), Err(MASTER_PORT_FAILURE));
    assert_eq!(info.core_frequency("1", 2400), Err(MASTER_PORT_FAILURE));
    assert_eq!(info.clusters().err(), Some(match_failure));
}

#[test]
fn outcomes_read_back_the_same_each_time() {
    let info = PlatformInfo::new(Ok(sample_map()), Err(MASTER_PORT_FAILURE));
    assert_eq!(info.frequencies(), info.frequencies());
    assert_eq!(info.core_frequency("2", 1), info.core_frequency("2", 1));
}

#[test]
fn empty_traversal_means_os_frequency_everywhere() {
    let pair = resolve(&Vec::new(), 24_000_000);
    assert_eq!(pair, Ok(FrequencyPair { efficiency: 0, performance: 0 }));
    let info = PlatformInfo::new(Ok(sample_map()), pair);
    for (name, os) in [("0", 600), ("1", 2064), ("2", 3228), ("3", 1)] {
        assert_eq!(info.core_frequency(name, os), Ok(os as u32));
    }
}
