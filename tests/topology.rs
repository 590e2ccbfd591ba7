use hw_telemetry::decode::{PropertyDictionary, PropertyValue};
use hw_telemetry::status::{RegistryError, RegistryStage};
use hw_telemetry::topology::{classify, read_cpu_record, ClusterMap, ClusterTag};

fn bytes(d: &mut PropertyDictionary, key: &str, value: &[u8]) {
    d.insert(String::from(key), PropertyValue::Bytes(value.to_vec()));
}

fn cpu(id: u32, cluster: &[u8]) -> PropertyDictionary {
    let mut d = PropertyDictionary::new();
    bytes(&mut d, "device_type", b"cpu\0");
    bytes(&mut d, "cluster-type", cluster);
    bytes(&mut d, "cpu-id", &id.to_le_bytes());
    d
}

fn fetch_failure() -> Result<PropertyDictionary, RegistryError> {
    Err(RegistryError { stage: RegistryStage::PropertyFetch, status: 5 })
}

#[test]
fn cpu_device_gives_its_record() {
    assert_eq!(read_cpu_record(&cpu(3, b"E\0")), Some((3, ClusterTag::Efficiency)));
    assert_eq!(read_cpu_record(&cpu(4, b"P\0")), Some((4, ClusterTag::Performance)));
    assert_eq!(read_cpu_record(&cpu(5, b"X\0")), Some((5, ClusterTag::Unknown)));
    assert_eq!(read_cpu_record(&cpu(6, b"EP\0")), Some((6, ClusterTag::Unknown)));
    assert_eq!(read_cpu_record(&cpu(7, b"\0")), Some((7, ClusterTag::Unknown)));
}

#[test]
fn other_devices_give_no_record() {
    let mut gpu = cpu(1, b"P\0");
    bytes(&mut gpu, "device_type", b"gpu\0");
    assert_eq!(read_cpu_record(&gpu), None);

    let mut short_id = cpu(1, b"P\0");
    bytes(&mut short_id, "cpu-id", &[1, 0]);
    assert_eq!(read_cpu_record(&short_id), None);

    let mut no_cluster = PropertyDictionary::new();
    bytes(&mut no_cluster, "device_type", b"cpu\0");
    bytes(&mut no_cluster, "cpu-id", &[1, 0, 0, 0]);
    assert_eq!(read_cpu_record(&no_cluster), None);

    let mut text_type = cpu(1, b"P\0");
    text_type.insert(String::from("device_type"), PropertyValue::Text(String::from("cpu")));
    assert_eq!(read_cpu_record(&text_type), None);
}

#[test]
fn classify_builds_map_of_cpu_devices() {
    let mut other = PropertyDictionary::new();
    bytes(&mut other, "device_type", b"i2c\0");
    let entries = vec![
        Ok(cpu(0, b"E\0")),
        Ok(other),
        Ok(cpu(1, b"E\0")),
        fetch_failure(),
        Ok(cpu(4, b"P\0")),
        Ok(cpu(5, b"P\0")),
    ];
    let m = classify(&entries);
    assert_eq!(m.len(), 4);
    assert_eq!(m.get(0), Some(ClusterTag::Efficiency));
    assert_eq!(m.get(1), Some(ClusterTag::Efficiency));
    assert_eq!(m.get(4), Some(ClusterTag::Performance));
    assert_eq!(m.get(5), Some(ClusterTag::Performance));
    assert_eq!(m.get(2), None);
}

#[test]
fn later_record_of_a_core_wins() {
    let entries = vec![Ok(cpu(2, b"E\0")), Ok(cpu(2, b"P\0"))];
    let m = classify(&entries);
    assert_eq!(m.len(), 1);
    assert_eq!(m.get(2), Some(ClusterTag::Performance));
}

#[test]
fn classification_is_repeatable() {
    let entries = vec![Ok(cpu(0, b"E\0")), Ok(cpu(1, b"P\0")), Ok(cpu(2, b"Q\0"))];
    let a = classify(&entries);
    let b = classify(&entries);
    for core in 0..4 {
        assert_eq!(a.get(core), b.get(core));
    }
    assert_eq!(a.len(), b.len());
    assert_eq!(a.get(2), Some(ClusterTag::Unknown));
}

#[test]
fn no_entries_give_empty_map() {
    let m = classify(&Vec::new());
    assert_eq!(m.len(), 0);
}

#[test]
fn record_takes_one_entry_at_a_time() {
    let mut m = ClusterMap::new();
    m.record(&Ok(cpu(9, b"P\0")));
    m.record(&fetch_failure());
    assert_eq!(m.len(), 1);
    assert_eq!(m.get(9), Some(ClusterTag::Performance));
}
