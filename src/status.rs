//! Status codes returned by the hardware-registry primitives, and the error
//! that a failed primitive turns into.

use vstd::prelude::*;

verus! {

/// A Mach kernel return code, by name. Codes without a name of their own are
/// `KernUnknown`.
#[derive(Clone, Copy, Debug, PartialEq, Eq, Structural)]
pub enum KernStatus {
    KernSuccess,
    KernInvalidAddress,
    KernProtectionFailure,
    KernNoSpace,
    KernInvalidArgument,
    KernFailure,
    KernResourceShortage,
    KernNotReceiver,
    KernNoAccess,
    KernMemoryFailure,
    KernMemoryError,
    KernAlreadyInSet,
    KernNotInSet,
    KernNameExists,
    KernAborted,
    KernInvalidName,
    KernInvalidTask,
    KernInvalidRight,
    KernInvalidValue,
    KernUrefsOverflow,
    KernInvalidCapability,
    KernRightExists,
    KernInvalidHost,
    KernMemoryPresent,
    KernMemoryDataMoved,
    KernMemoryRestartCopy,
    KernInvalidProcessorSet,
    KernPolicyLimit,
    KernInvalidPolicy,
    KernInvalidObject,
    KernAlreadyWaiting,
    KernDefaultSet,
    KernExceptionProtected,
    KernInvalidLedger,
    KernInvalidMemoryControl,
    KernInvalidSecurity,
    KernNotDepressed,
    KernTerminated,
    KernLockSetDestroyed,
    KernLockUnstable,
    KernLockOwned,
    KernLockOwnedSelf,
    KernSemaphoreDestroyed,
    KernRpcServerTerminated,
    KernRpcTerminateOrphan,
    KernRpcContinueOrphan,
    KernNotSupported,
    KernNodeDown,
    KernNotWaiting,
    KernOperationTimedOut,
    KernCodesignError,
    KernPolicyStatic,
    KernInsufficientBufferSize,
    KernUnknown,
}

/// The numeric code of each named status: `0` for success up to `52`, and
/// `4096` standing for every code without a name.
pub open spec fn kern_code(k: KernStatus) -> int {
    match k {
        KernStatus::KernSuccess => 0,
        KernStatus::KernInvalidAddress => 1,
        KernStatus::KernProtectionFailure => 2,
        KernStatus::KernNoSpace => 3,
        KernStatus::KernInvalidArgument => 4,
        KernStatus::KernFailure => 5,
        KernStatus::KernResourceShortage => 6,
        KernStatus::KernNotReceiver => 7,
        KernStatus::KernNoAccess => 8,
        KernStatus::KernMemoryFailure => 9,
        KernStatus::KernMemoryError => 10,
        KernStatus::KernAlreadyInSet => 11,
        KernStatus::KernNotInSet => 12,
        KernStatus::KernNameExists => 13,
        KernStatus::KernAborted => 14,
        KernStatus::KernInvalidName => 15,
        KernStatus::KernInvalidTask => 16,
        KernStatus::KernInvalidRight => 17,
        KernStatus::KernInvalidValue => 18,
        KernStatus::KernUrefsOverflow => 19,
        KernStatus::KernInvalidCapability => 20,
        KernStatus::KernRightExists => 21,
        KernStatus::KernInvalidHost => 22,
        KernStatus::KernMemoryPresent => 23,
        KernStatus::KernMemoryDataMoved => 24,
        KernStatus::KernMemoryRestartCopy => 25,
        KernStatus::KernInvalidProcessorSet => 26,
        KernStatus::KernPolicyLimit => 27,
        KernStatus::KernInvalidPolicy => 28,
        KernStatus::KernInvalidObject => 29,
        KernStatus::KernAlreadyWaiting => 30,
        KernStatus::KernDefaultSet => 31,
        KernStatus::KernExceptionProtected => 32,
        KernStatus::KernInvalidLedger => 33,
        KernStatus::KernInvalidMemoryControl => 34,
        KernStatus::KernInvalidSecurity => 35,
        KernStatus::KernNotDepressed => 36,
        KernStatus::KernTerminated => 37,
        KernStatus::KernLockSetDestroyed => 38,
        KernStatus::KernLockUnstable => 39,
        KernStatus::KernLockOwned => 40,
        KernStatus::KernLockOwnedSelf => 41,
        KernStatus::KernSemaphoreDestroyed => 42,
        KernStatus::KernRpcServerTerminated => 43,
        KernStatus::KernRpcTerminateOrphan => 44,
        KernStatus::KernRpcContinueOrphan => 45,
        KernStatus::KernNotSupported => 46,
        KernStatus::KernNodeDown => 47,
        KernStatus::KernNotWaiting => 48,
        KernStatus::KernOperationTimedOut => 49,
        KernStatus::KernCodesignError => 50,
        KernStatus::KernPolicyStatic => 51,
        KernStatus::KernInsufficientBufferSize => 52,
        KernStatus::KernUnknown => 4096,
    }
}

/// The status that a native code denotes: the one whose code it is, or
/// `KernUnknown` for a code that has no name.
pub open spec fn kern_status_of(code: i32) -> KernStatus {
    if 0 <= code <= 52 {
        choose|k: KernStatus| kern_code(k) == code
    } else {
        KernStatus::KernUnknown
    }
}

/// Distinct statuses have distinct codes.
pub proof fn lemma_kern_code_injective(a: KernStatus, b: KernStatus)
    requires
        kern_code(a) == kern_code(b),
    ensures
        a == b,
{
}

impl KernStatus {
    /// The numeric code of this status.
    pub fn code(&self) -> (r: i32)
        ensures
            r == kern_code(*self),
    {
        match self {
            KernStatus::KernSuccess => 0,
            KernStatus::KernInvalidAddress => 1,
            KernStatus::KernProtectionFailure => 2,
            KernStatus::KernNoSpace => 3,
            KernStatus::KernInvalidArgument => 4,
            KernStatus::KernFailure => 5,
            KernStatus::KernResourceShortage => 6,
            KernStatus::KernNotReceiver => 7,
            KernStatus::KernNoAccess => 8,
            KernStatus::KernMemoryFailure => 9,
            KernStatus::KernMemoryError => 10,
            KernStatus::KernAlreadyInSet => 11,
            KernStatus::KernNotInSet => 12,
            KernStatus::KernNameExists => 13,
            KernStatus::KernAborted => 14,
            KernStatus::KernInvalidName => 15,
            KernStatus::KernInvalidTask => 16,
            KernStatus::KernInvalidRight => 17,
            KernStatus::KernInvalidValue => 18,
            KernStatus::KernUrefsOverflow => 19,
            KernStatus::KernInvalidCapability => 20,
            KernStatus::KernRightExists => 21,
            KernStatus::KernInvalidHost => 22,
            KernStatus::KernMemoryPresent => 23,
            KernStatus::KernMemoryDataMoved => 24,
            KernStatus::KernMemoryRestartCopy => 25,
            KernStatus::KernInvalidProcessorSet => 26,
            KernStatus::KernPolicyLimit => 27,
            KernStatus::KernInvalidPolicy => 28,
            KernStatus::KernInvalidObject => 29,
            KernStatus::KernAlreadyWaiting => 30,
            KernStatus::KernDefaultSet => 31,
            KernStatus::KernExceptionProtected => 32,
            KernStatus::KernInvalidLedger => 33,
            KernStatus::KernInvalidMemoryControl => 34,
            KernStatus::KernInvalidSecurity => 35,
            KernStatus::KernNotDepressed => 36,
            KernStatus::KernTerminated => 37,
            KernStatus::KernLockSetDestroyed => 38,
            KernStatus::KernLockUnstable => 39,
            KernStatus::KernLockOwned => 40,
            KernStatus::KernLockOwnedSelf => 41,
            KernStatus::KernSemaphoreDestroyed => 42,
            KernStatus::KernRpcServerTerminated => 43,
            KernStatus::KernRpcTerminateOrphan => 44,
            KernStatus::KernRpcContinueOrphan => 45,
            KernStatus::KernNotSupported => 46,
            KernStatus::KernNodeDown => 47,
            KernStatus::KernNotWaiting => 48,
            KernStatus::KernOperationTimedOut => 49,
            KernStatus::KernCodesignError => 50,
            KernStatus::KernPolicyStatic => 51,
            KernStatus::KernInsufficientBufferSize => 52,
            KernStatus::KernUnknown => 4096,
        }
    }
}

impl From<i32> for KernStatus {
    fn from(value: i32) -> (r: KernStatus)
        ensures
            r == kern_status_of(value),
            0 <= value <= 52 ==> kern_code(r) == value,
            !(0 <= value <= 52) ==> r == KernStatus::KernUnknown,
    {
        let r = match value {
            0 => KernStatus::KernSuccess,
            1 => KernStatus::KernInvalidAddress,
            2 => KernStatus::KernProtectionFailure,
            3 => KernStatus::KernNoSpace,
            4 => KernStatus::KernInvalidArgument,
            5 => KernStatus::KernFailure,
            6 => KernStatus::KernResourceShortage,
            7 => KernStatus::KernNotReceiver,
            8 => KernStatus::KernNoAccess,
            9 => KernStatus::KernMemoryFailure,
            10 => KernStatus::KernMemoryError,
            11 => KernStatus::KernAlreadyInSet,
            12 => KernStatus::KernNotInSet,
            13 => KernStatus::KernNameExists,
            14 => KernStatus::KernAborted,
            15 => KernStatus::KernInvalidName,
            16 => KernStatus::KernInvalidTask,
            17 => KernStatus::KernInvalidRight,
            18 => KernStatus::KernInvalidValue,
            19 => KernStatus::KernUrefsOverflow,
            20 => KernStatus::KernInvalidCapability,
            21 => KernStatus::KernRightExists,
            22 => KernStatus::KernInvalidHost,
            23 => KernStatus::KernMemoryPresent,
            24 => KernStatus::KernMemoryDataMoved,
            25 => KernStatus::KernMemoryRestartCopy,
            26 => KernStatus::KernInvalidProcessorSet,
            27 => KernStatus::KernPolicyLimit,
            28 => KernStatus::KernInvalidPolicy,
            29 => KernStatus::KernInvalidObject,
            30 => KernStatus::KernAlreadyWaiting,
            31 => KernStatus::KernDefaultSet,
            32 => KernStatus::KernExceptionProtected,
            33 => KernStatus::KernInvalidLedger,
            34 => KernStatus::KernInvalidMemoryControl,
            35 => KernStatus::KernInvalidSecurity,
            36 => KernStatus::KernNotDepressed,
            37 => KernStatus::KernTerminated,
            38 => KernStatus::KernLockSetDestroyed,
            39 => KernStatus::KernLockUnstable,
            40 => KernStatus::KernLockOwned,
            41 => KernStatus::KernLockOwnedSelf,
            42 => KernStatus::KernSemaphoreDestroyed,
            43 => KernStatus::KernRpcServerTerminated,
            44 => KernStatus::KernRpcTerminateOrphan,
            45 => KernStatus::KernRpcContinueOrphan,
            46 => KernStatus::KernNotSupported,
            47 => KernStatus::KernNodeDown,
            48 => KernStatus::KernNotWaiting,
            49 => KernStatus::KernOperationTimedOut,
            50 => KernStatus::KernCodesignError,
            51 => KernStatus::KernPolicyStatic,
            52 => KernStatus::KernInsufficientBufferSize,
            _ => KernStatus::KernUnknown,
        };
        proof {
            if 0 <= value <= 52 {
                lemma_kern_code_injective(r, kern_status_of(value));
            }
        }
        r
    }
}

impl vstd::std_specs::convert::FromSpecImpl<i32> for KernStatus {
    open spec fn obeys_from_spec() -> bool {
        true
    }

    open spec fn from_spec(v: i32) -> KernStatus {
        kern_status_of(v)
    }
}

/// The code with which a registry primitive reports success.
pub const KERN_SUCCESS: i32 = 0;

/// The registry primitive whose failure an error reports.
#[derive(Clone, Copy, Debug, PartialEq, Eq, Structural)]
pub enum RegistryStage {
    /// Obtaining the registry's master port.
    GetMasterPort,
    /// Starting the match of a service class.
    Match,
    /// Materializing the property dictionary of one entry.
    PropertyFetch,
}

/// A registry primitive returned a status other than success.
#[derive(Clone, Copy, Debug, PartialEq, Eq, Structural)]
pub struct RegistryError {
    pub stage: RegistryStage,
    /// The native status the primitive returned.
    pub status: i32,
}

impl RegistryError {
    /// The outcome of a primitive that returned `status` at `stage`: success
    /// for `KERN_SUCCESS`, otherwise the error naming both.
    pub fn check(stage: RegistryStage, status: i32) -> (r: Result<(), RegistryError>)
        ensures
            status == KERN_SUCCESS ==> r is Ok,
            status != KERN_SUCCESS ==> r == Err::<(), RegistryError>(
                RegistryError { stage, status },
            ),
    {
        if status == KERN_SUCCESS {
            Ok(())
        } else {
            Err(RegistryError { stage, status })
        }
    }

    /// The named status of the native code.
    pub fn kind(&self) -> (r: KernStatus)
        ensures
            r == kern_status_of(self.status),
    {
        KernStatus::from(self.status)
    }
}

} // verus!
