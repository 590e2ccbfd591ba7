use hw_telemetry::status::{KernStatus, RegistryError, RegistryStage, KERN_SUCCESS};

#[test]
fn kern_status_from_code() {
    assert_eq!(KernStatus::from(0), KernStatus::KernSuccess);
    assert_eq!(KernStatus::from(4), KernStatus::KernInvalidArgument);
    assert_eq!(KernStatus::from(49), KernStatus::KernOperationTimedOut);
    assert_eq!(KernStatus::from(52), KernStatus::KernInsufficientBufferSize);
}

#[test]
fn codes_without_a_name_are_unknown() {
    assert_eq!(KernStatus::from(53), KernStatus::KernUnknown);
    assert_eq!(KernStatus::from(-1), KernStatus::KernUnknown);
    assert_eq!(KernStatus::from(4096), KernStatus::KernUnknown);
    assert_eq!(KernStatus::from(i32::MIN), KernStatus::KernUnknown);
}

#[test]
fn kern_status_code_round_trips() {
    for code in 0..=52 {
        assert_eq!(KernStatus::from(code).code(), code);
    }
    assert_eq!(KernStatus::KernUnknown.code(), 4096);
    assert_eq!(KernStatus::KernFailure.code(), 5);
}

#[test]
fn success_status_passes() {
    assert_eq!(RegistryError::check(RegistryStage::Match, KERN_SUCCESS), Ok(()));
}

#[test]
fn failed_status_names_stage_and_status() {
    let r = RegistryError::check(RegistryStage::GetMasterPort, 5);
    assert_eq!(
        r,
        Err(RegistryError { stage: RegistryStage::GetMasterPort, status: 5 })
    );
    let e = r.unwrap_err();
    assert_eq!(e.kind(), KernStatus::KernFailure);
    let e = RegistryError { stage: RegistryStage::PropertyFetch, status: 268435459 };
    assert_eq!(e.kind(), KernStatus::KernUnknown);
}
