//! Storage tracking for a whole call: one measurement at a time, kept in a
//! value that the caller holds, and the history of what was measured.

use vstd::prelude::*;
use crate::storage_tracker::{StorageUsage, TrackerError};

verus! {

/// The bytes that the measurements of a call have added and released.
#[derive(Debug, Clone, Copy, PartialEq, Eq, Structural)]
pub struct StorageHistory {
    pub bytes_added: StorageUsage,
    pub bytes_released: StorageUsage,
}

impl StorageHistory {
    /// The history with the given counts.
    pub fn new(bytes_added: StorageUsage, bytes_released: StorageUsage) -> (r: Self)
        ensures
            r == (StorageHistory { bytes_added, bytes_released }),
    {
        Self { bytes_added, bytes_released }
    }

    /// The history that `usage` extends when the measurement started at
    /// `initial`: growth is added to the bytes added, a fall to the bytes
    /// released.
    pub open spec fn extended(self, initial: StorageUsage, usage: StorageUsage) -> (int, int) {
        if usage >= initial {
            (self.bytes_added + (usage - initial), self.bytes_released as int)
        } else {
            (self.bytes_added as int, self.bytes_released + (initial - usage))
        }
    }
}

impl Default for StorageHistory {
    fn default() -> (r: Self)
        ensures
            r == (StorageHistory { bytes_added: 0, bytes_released: 0 }),
    {
        Self { bytes_added: 0, bytes_released: 0 }
    }
}

/// The measurement of a call: whether one is running, and the host's
/// storage counter at its start.
#[derive(Debug, Clone, Copy, PartialEq, Eq, Structural)]
pub struct StorageTracking {
    pub tracking: bool,
    pub initial_storage_used: StorageUsage,
}

impl StorageTracking {
    /// No measurement running.
    pub fn new() -> (r: Self)
        ensures
            r == (StorageTracking { tracking: false, initial_storage_used: 0 }),
    {
        Self { tracking: false, initial_storage_used: 0 }
    }
}

/// Whether a measurement is running.
pub fn is_storage_tracking(state: &StorageTracking) -> (r: bool)
    ensures
        r == state.tracking,
{
    state.tracking
}

/// Starts a measurement at `storage_used`, the host's storage counter.
/// Refused, with nothing changed, while a measurement is running.
pub fn start_storage_tracking(state: &mut StorageTracking, storage_used: StorageUsage) -> (r: Result<
    (),
    TrackerError,
>)
    ensures
        old(state).tracking ==> r == Err::<(), TrackerError>(TrackerError::AlreadyTracking)
            && *final(state) == *old(state),
        !old(state).tracking ==> r is Ok && *final(state) == (StorageTracking {
            tracking: true,
            initial_storage_used: storage_used,
        }),
{
    if state.tracking {
        return Err(TrackerError::AlreadyTracking);
    }
    state.tracking = true;
    state.initial_storage_used = storage_used;
    Ok(())
}

/// Ends the measurement at `storage_used`, the host's storage counter, and
/// returns the history so far, extended by what was measured: by the growth
/// of the counter since the start, or by its fall. Without an earlier
/// history the measurement stands alone. Refused, with nothing changed,
/// where a count would leave its range.
pub fn stop_storage_tracking(
    state: &mut StorageTracking,
    previous_history: Option<StorageHistory>,
    storage_used: StorageUsage,
) -> (r: Result<StorageHistory, TrackerError>)
    ensures
        ({
            let before = match previous_history {
                Some(h) => h,
                None => StorageHistory { bytes_added: 0, bytes_released: 0 },
            };
            let (added, released) = before.extended(old(state).initial_storage_used, storage_used);
            if added <= StorageUsage::MAX && released <= StorageUsage::MAX {
                &&& r == Ok::<StorageHistory, TrackerError>(
                    StorageHistory {
                        bytes_added: added as StorageUsage,
                        bytes_released: released as StorageUsage,
                    },
                )
                &&& *final(state) == (StorageTracking { tracking: false, initial_storage_used: 0 })
            } else {
                &&& r == Err::<StorageHistory, TrackerError>(TrackerError::Overflow)
                &&& *final(state) == *old(state)
            }
        }),
{
    let mut storage_history: StorageHistory = match previous_history {
        Some(history) => history,
        None => StorageHistory::default(),
    };
    let initial_storage_used: StorageUsage = state.initial_storage_used;
    if storage_used >= initial_storage_used {
        match storage_history.bytes_added.checked_add(storage_used - initial_storage_used) {
            Some(bytes_added) => {
                storage_history.bytes_added = bytes_added;
            },
            None => {
                return Err(TrackerError::Overflow);
            },
        }
    } else {
        match storage_history.bytes_released.checked_add(initial_storage_used - storage_used) {
            Some(bytes_released) => {
                storage_history.bytes_released = bytes_released;
            },
            None => {
                return Err(TrackerError::Overflow);
            },
        }
    }
    state.tracking = false;
    state.initial_storage_used = 0;
    Ok(storage_history)
}

} // verus!
