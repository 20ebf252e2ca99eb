//! Device-state derivation.
//!
//! A vdev's human-readable state is derived from two numeric codes read
//! out of its packed statistics array: a primary status and an auxiliary
//! reason refining it.  Each raw code is first mapped into its enumerated
//! domain; a code outside the domain is an `InvalidState` error.  The two
//! enumerants are then combined by a fixed table into one state name such
//! as `ONLINE` or `FAULTED`.

use vstd::prelude::*;

verus! {

/// Primary device status, in the native numbering order (code 0 first).
#[derive(Clone, Copy, Debug, PartialEq, Eq, Structural)]
pub enum VdevState {
    Unknown,
    Closed,
    Offline,
    Removed,
    CantOpen,
    Faulted,
    Degraded,
    Healthy,
}

/// Auxiliary reason refining a primary status, in the native numbering
/// order (code 0 first).
#[derive(Clone, Copy, Debug, PartialEq, Eq, Structural)]
pub enum VdevAux {
    NoAux,
    OpenFailed,
    CorruptData,
    NoReplicas,
    BadGuidSum,
    TooSmall,
    BadLabel,
    VersionNewer,
    VersionOlder,
    UnsupFeat,
    Spared,
    ErrExceeded,
    IoFailure,
    BadLog,
    External,
    SplitPool,
    BadDev,
    ChildrenOffline,
}

/// The primary status for a raw code, if the code is in the domain.
pub open spec fn spec_state_from_code(c: u64) -> Option<VdevState> {
    if c == 0 {
        Some(VdevState::Unknown)
    } else if c == 1 {
        Some(VdevState::Closed)
    } else if c == 2 {
        Some(VdevState::Offline)
    } else if c == 3 {
        Some(VdevState::Removed)
    } else if c == 4 {
        Some(VdevState::CantOpen)
    } else if c == 5 {
        Some(VdevState::Faulted)
    } else if c == 6 {
        Some(VdevState::Degraded)
    } else if c == 7 {
        Some(VdevState::Healthy)
    } else {
        None
    }
}

/// The auxiliary reason for a raw code, if the code is in the domain.
pub open spec fn spec_aux_from_code(c: u64) -> Option<VdevAux> {
    if c == 0 {
        Some(VdevAux::NoAux)
    } else if c == 1 {
        Some(VdevAux::OpenFailed)
    } else if c == 2 {
        Some(VdevAux::CorruptData)
    } else if c == 3 {
        Some(VdevAux::NoReplicas)
    } else if c == 4 {
        Some(VdevAux::BadGuidSum)
    } else if c == 5 {
        Some(VdevAux::TooSmall)
    } else if c == 6 {
        Some(VdevAux::BadLabel)
    } else if c == 7 {
        Some(VdevAux::VersionNewer)
    } else if c == 8 {
        Some(VdevAux::VersionOlder)
    } else if c == 9 {
        Some(VdevAux::UnsupFeat)
    } else if c == 10 {
        Some(VdevAux::Spared)
    } else if c == 11 {
        Some(VdevAux::ErrExceeded)
    } else if c == 12 {
        Some(VdevAux::IoFailure)
    } else if c == 13 {
        Some(VdevAux::BadLog)
    } else if c == 14 {
        Some(VdevAux::External)
    } else if c == 15 {
        Some(VdevAux::SplitPool)
    } else if c == 16 {
        Some(VdevAux::BadDev)
    } else if c == 17 {
        Some(VdevAux::ChildrenOffline)
    } else {
        None
    }
}

/// The combined state name for a status/aux pair.  The auxiliary reason
/// only distinguishes outcomes when the device cannot be opened: corrupt
/// data or a bad log make it `FAULTED`, a split pool `SPLIT`, and
/// anything else `UNAVAIL`.
pub open spec fn spec_state_name(s: VdevState, aux: VdevAux) -> Seq<char> {
    match s {
        VdevState::Unknown => "UNKNOWN"@,
        VdevState::Closed => "OFFLINE"@,
        VdevState::Offline => "OFFLINE"@,
        VdevState::Removed => "REMOVED"@,
        VdevState::CantOpen => if aux == VdevAux::CorruptData || aux == VdevAux::BadLog {
            "FAULTED"@
        } else if aux == VdevAux::SplitPool {
            "SPLIT"@
        } else {
            "UNAVAIL"@
        },
        VdevState::Faulted => "FAULTED"@,
        VdevState::Degraded => "DEGRADED"@,
        VdevState::Healthy => "ONLINE"@,
    }
}

/// Every derived state name belongs to the fixed vocabulary.
pub proof fn lemma_state_name_vocabulary(s: VdevState, aux: VdevAux)
    ensures
        spec_state_name(s, aux) == "UNKNOWN"@ || spec_state_name(s, aux) == "OFFLINE"@
            || spec_state_name(s, aux) == "REMOVED"@ || spec_state_name(s, aux) == "FAULTED"@
            || spec_state_name(s, aux) == "SPLIT"@ || spec_state_name(s, aux) == "UNAVAIL"@
            || spec_state_name(s, aux) == "DEGRADED"@ || spec_state_name(s, aux) == "ONLINE"@,
{
}

/// Maps a raw primary-status code into its enumerated domain.
pub fn state_from_code(c: u64) -> (r: Option<VdevState>)
    ensures
        r == spec_state_from_code(c),
{
    if c == 0 {
        Some(VdevState::Unknown)
    } else if c == 1 {
        Some(VdevState::Closed)
    } else if c == 2 {
        Some(VdevState::Offline)
    } else if c == 3 {
        Some(VdevState::Removed)
    } else if c == 4 {
        Some(VdevState::CantOpen)
    } else if c == 5 {
        Some(VdevState::Faulted)
    } else if c == 6 {
        Some(VdevState::Degraded)
    } else if c == 7 {
        Some(VdevState::Healthy)
    } else {
        None
    }
}

/// Maps a raw auxiliary-reason code into its enumerated domain.
pub fn aux_from_code(c: u64) -> (r: Option<VdevAux>)
    ensures
        r == spec_aux_from_code(c),
{
    if c == 0 {
        Some(VdevAux::NoAux)
    } else if c == 1 {
        Some(VdevAux::OpenFailed)
    } else if c == 2 {
        Some(VdevAux::CorruptData)
    } else if c == 3 {
        Some(VdevAux::NoReplicas)
    } else if c == 4 {
        Some(VdevAux::BadGuidSum)
    } else if c == 5 {
        Some(VdevAux::TooSmall)
    } else if c == 6 {
        Some(VdevAux::BadLabel)
    } else if c == 7 {
        Some(VdevAux::VersionNewer)
    } else if c == 8 {
        Some(VdevAux::VersionOlder)
    } else if c == 9 {
        Some(VdevAux::UnsupFeat)
    } else if c == 10 {
        Some(VdevAux::Spared)
    } else if c == 11 {
        Some(VdevAux::ErrExceeded)
    } else if c == 12 {
        Some(VdevAux::IoFailure)
    } else if c == 13 {
        Some(VdevAux::BadLog)
    } else if c == 14 {
        Some(VdevAux::External)
    } else if c == 15 {
        Some(VdevAux::SplitPool)
    } else if c == 16 {
        Some(VdevAux::BadDev)
    } else if c == 17 {
        Some(VdevAux::ChildrenOffline)
    } else {
        None
    }
}

/// Combines a status and an auxiliary reason into the state name.
pub fn state_name(s: VdevState, aux: VdevAux) -> (r: String)
    ensures
        r@ == spec_state_name(s, aux),
{
    match s {
        VdevState::Unknown => String::from_str("UNKNOWN"),
        VdevState::Closed => String::from_str("OFFLINE"),
        VdevState::Offline => String::from_str("OFFLINE"),
        VdevState::Removed => String::from_str("REMOVED"),
        VdevState::CantOpen => {
            if aux == VdevAux::CorruptData || aux == VdevAux::BadLog {
                String::from_str("FAULTED")
            } else if aux == VdevAux::SplitPool {
                String::from_str("SPLIT")
            } else {
                String::from_str("UNAVAIL")
            }
        },
        VdevState::Faulted => String::from_str("FAULTED"),
        VdevState::Degraded => String::from_str("DEGRADED"),
        VdevState::Healthy => String::from_str("ONLINE"),
    }
}

} // verus!
