//! The byte meter: a scoped measurement of how many bytes of persistent
//! storage an operation adds or releases.
//!
//! The host keeps one counter of the bytes a contract occupies. A meter is
//! handed the counter's value when a scope starts and again when it stops,
//! and accumulates the difference. The meter never reads the host itself.

use vstd::prelude::*;

verus! {

/// A number of bytes of persistent storage.
pub type StorageUsage = u64;

/// The ways in which a meter can be misused. Every one of them is an
/// internal accounting fault, never a mistake of the end user.
#[derive(Debug, Clone, Copy, PartialEq, Eq, Structural)]
pub enum TrackerError {
    /// `start` on a meter that is already measuring.
    AlreadyTracking,
    /// `stop` on a meter that is not measuring.
    NotTracking,
    /// `consume` of a meter that is still measuring.
    MergeWhileTracking,
    /// `clear` on a meter that is still measuring.
    ClearWhileTracking,
    /// A meter was discarded while it still held unaccounted bytes.
    NonTrackedChange,
    /// An accumulated count left the range of `StorageUsage`.
    Overflow,
}

impl TrackerError {
    /// The text that accompanies the fault.
    pub open spec fn message_text(self) -> Seq<char> {
        match self {
            TrackerError::AlreadyTracking => "The storage tracker is already tracking"@,
            TrackerError::NotTracking => "The storage tracker wasn't tracking"@,
            TrackerError::MergeWhileTracking => "Can't merge storage tracker that is tracking storage"@,
            TrackerError::ClearWhileTracking => "Can't clear storage tracker that is active"@,
            TrackerError::NonTrackedChange => "Bug, non-tracked storage change"@,
            TrackerError::Overflow => "Storage tracker overflow"@,
        }
    }

    /// The text that accompanies the fault.
    pub fn message(&self) -> (r: &'static str)
        ensures
            r@ == self.message_text(),
    {
        match self {
            TrackerError::AlreadyTracking => "The storage tracker is already tracking",
            TrackerError::NotTracking => "The storage tracker wasn't tracking",
            TrackerError::MergeWhileTracking => "Can't merge storage tracker that is tracking storage",
            TrackerError::ClearWhileTracking => "Can't clear storage tracker that is active",
            TrackerError::NonTrackedChange => "Bug, non-tracked storage change",
            TrackerError::Overflow => "Storage tracker overflow",
        }
    }
}

/// A helper object that tracks changes in state storage.
#[derive(Debug)]
pub struct StorageTracker {
    /// Bytes added over all finished scopes and not yet accounted.
    pub bytes_added: StorageUsage,
    /// Bytes released over all finished scopes and not yet accounted.
    pub bytes_released: StorageUsage,
    /// The host counter's value when the running scope started; `None`
    /// while no scope is running.
    pub initial_storage_usage: Option<StorageUsage>,
}

impl Clone for StorageTracker {
    fn clone(&self) -> (r: Self)
        ensures
            r == *self,
    {
        StorageTracker {
            bytes_added: self.bytes_added,
            bytes_released: self.bytes_released,
            initial_storage_usage: self.initial_storage_usage,
        }
    }
}

impl Default for StorageTracker {
    fn default() -> (r: Self)
        ensures
            r == StorageTracker::spec_new(),
    {
        StorageTracker::new()
    }
}

impl StorageTracker {
    /// The host counter's value at the start of the running scope, if a
    /// scope is running.
    pub open spec fn start_point(&self) -> Option<StorageUsage> {
        self.initial_storage_usage
    }

    /// Whether a scope is running.
    pub open spec fn is_active(&self) -> bool {
        self.start_point() is Some
    }

    /// Nothing accumulated and no scope running.
    pub open spec fn spec_is_empty(&self) -> bool {
        self.bytes_added == 0 && self.bytes_released == 0 && !self.is_active()
    }

    /// The meter with the given counts and no scope running.
    pub open spec fn idle(bytes_added: StorageUsage, bytes_released: StorageUsage) -> Self {
        StorageTracker { bytes_added, bytes_released, initial_storage_usage: None }
    }

    /// The fresh meter.
    pub open spec fn spec_new() -> Self {
        Self::idle(0, 0)
    }

    /// The meter after a scope was opened at host counter `storage_usage`.
    pub open spec fn spec_start(self, storage_usage: StorageUsage) -> Self {
        StorageTracker { initial_storage_usage: Some(storage_usage), ..self }
    }

    /// Bytes that the running scope has added when the host counter reads
    /// `storage_usage`; zero if the counter fell.
    pub open spec fn growth(self, storage_usage: StorageUsage) -> int {
        if self.is_active() && storage_usage >= self.start_point()->0 {
            storage_usage - self.start_point()->0
        } else {
            0
        }
    }

    /// Bytes that the running scope has released when the host counter
    /// reads `storage_usage`; zero if the counter did not fall.
    pub open spec fn shrinkage(self, storage_usage: StorageUsage) -> int {
        if self.is_active() && storage_usage < self.start_point()->0 {
            self.start_point()->0 - storage_usage
        } else {
            0
        }
    }

    /// Whether closing the running scope at `storage_usage` keeps both
    /// counts in range.
    pub open spec fn stop_fits(self, storage_usage: StorageUsage) -> bool {
        &&& self.bytes_added + self.growth(storage_usage) <= StorageUsage::MAX
        &&& self.bytes_released + self.shrinkage(storage_usage) <= StorageUsage::MAX
    }

    /// The meter after the running scope was closed at host counter
    /// `storage_usage`.
    pub open spec fn spec_stop(self, storage_usage: StorageUsage) -> Self
        recommends
            self.is_active(),
            self.stop_fits(storage_usage),
    {
        Self::idle(
            (self.bytes_added + self.growth(storage_usage)) as StorageUsage,
            (self.bytes_released + self.shrinkage(storage_usage)) as StorageUsage,
        )
    }

    /// A fresh meter: nothing accumulated, no scope running.
    pub fn new() -> (r: Self)
        ensures
            r == Self::spec_new(),
            r.spec_is_empty(),
    {
        Self { bytes_added: 0, bytes_released: 0, initial_storage_usage: None }
    }

    /// Whether a scope is running.
    pub fn is_tracking(&self) -> (r: bool)
        ensures
            r == self.is_active(),
    {
        self.initial_storage_usage.is_some()
    }

    /// Starts tracking the state storage changes. `storage_usage` is the
    /// host counter's current value. Fails, changing nothing, if a scope is
    /// already running.
    pub fn start(&mut self, storage_usage: StorageUsage) -> (r: Result<(), TrackerError>)
        ensures
            old(self).is_active() ==> r == Err::<(), TrackerError>(TrackerError::AlreadyTracking)
                && *final(self) == *old(self),
            !old(self).is_active() ==> r is Ok && *final(self) == old(self).spec_start(
                storage_usage,
            ),
    {
        if self.initial_storage_usage.is_some() {
            return Err(TrackerError::AlreadyTracking);
        }
        self.initial_storage_usage = Some(storage_usage);
        Ok(())
    }

    /// Stops tracking the state storage changes and records the change in
    /// bytes. `storage_usage` is the host counter's current value. A counter
    /// that did not fall adds its growth to `bytes_added`; one that fell adds
    /// the fall to `bytes_released`. Fails, changing nothing, if no scope is
    /// running or if a count would leave its range.
    pub fn stop(&mut self, storage_usage: StorageUsage) -> (r: Result<(), TrackerError>)
        ensures
            !old(self).is_active() ==> r == Err::<(), TrackerError>(TrackerError::NotTracking),
            old(self).is_active() && !old(self).stop_fits(storage_usage) ==> r == Err::<
                (),
                TrackerError,
            >(TrackerError::Overflow),
            old(self).is_active() && old(self).stop_fits(storage_usage) ==> r is Ok && *final(self)
                == old(self).spec_stop(storage_usage),
            r is Err ==> *final(self) == *old(self),
    {
        let initial_storage_usage: StorageUsage = match self.initial_storage_usage {
            Some(initial) => initial,
            None => {
                return Err(TrackerError::NotTracking);
            },
        };
        if storage_usage >= initial_storage_usage {
            match self.bytes_added.checked_add(storage_usage - initial_storage_usage) {
                Some(bytes_added) => {
                    self.bytes_added = bytes_added;
                },
                None => {
                    return Err(TrackerError::Overflow);
                },
            }
        } else {
            match self.bytes_released.checked_add(initial_storage_usage - storage_usage) {
                Some(bytes_released) => {
                    self.bytes_released = bytes_released;
                },
                None => {
                    return Err(TrackerError::Overflow);
                },
            }
        }
        self.initial_storage_usage = None;
        Ok(())
    }

    /// Consumes the other storage tracker changes: adds the other meter's
    /// counts to this one's and zeroes the other's. Fails, changing neither
    /// meter, if the other is still measuring or a sum would leave its range.
    pub fn consume(&mut self, other: &mut StorageTracker) -> (r: Result<(), TrackerError>)
        ensures
            old(other).is_active() ==> r == Err::<(), TrackerError>(
                TrackerError::MergeWhileTracking,
            ),
            !old(other).is_active() && !Self::merge_fits(*old(self), *old(other)) ==> r == Err::<
                (),
                TrackerError,
            >(TrackerError::Overflow),
            !old(other).is_active() && Self::merge_fits(*old(self), *old(other)) ==> {
                &&& r is Ok
                &&& final(self).bytes_added == old(self).bytes_added + old(other).bytes_added
                &&& final(self).bytes_released == old(self).bytes_released + old(
                    other,
                ).bytes_released
                &&& final(self).start_point() == old(self).start_point()
                &&& *final(other) == Self::spec_new()
            },
            r is Err ==> *final(self) == *old(self) && *final(other) == *old(other),
    {
        if other.initial_storage_usage.is_some() {
            return Err(TrackerError::MergeWhileTracking);
        }
        let bytes_added: StorageUsage = match self.bytes_added.checked_add(other.bytes_added) {
            Some(sum) => sum,
            None => {
                return Err(TrackerError::Overflow);
            },
        };
        let bytes_released: StorageUsage = match self.bytes_released.checked_add(
            other.bytes_released,
        ) {
            Some(sum) => sum,
            None => {
                return Err(TrackerError::Overflow);
            },
        };
        self.bytes_added = bytes_added;
        self.bytes_released = bytes_released;
        other.bytes_added = 0;
        other.bytes_released = 0;
        Ok(())
    }

    /// Whether the counts of two meters can be added within range.
    pub open spec fn merge_fits(a: Self, b: Self) -> bool {
        &&& a.bytes_added + b.bytes_added <= StorageUsage::MAX
        &&& a.bytes_released + b.bytes_released <= StorageUsage::MAX
    }

    /// Zeroes both counts. Fails, changing nothing, if a scope is running.
    pub fn clear(&mut self) -> (r: Result<(), TrackerError>)
        ensures
            old(self).is_active() ==> r == Err::<(), TrackerError>(
                TrackerError::ClearWhileTracking,
            ) && *final(self) == *old(self),
            !old(self).is_active() ==> r is Ok && *final(self) == Self::spec_new(),
    {
        if self.initial_storage_usage.is_some() {
            return Err(TrackerError::ClearWhileTracking);
        }
        self.bytes_added = 0;
        self.bytes_released = 0;
        Ok(())
    }

    /// Returns true if no bytes is added or released, and the tracker is not active.
    pub fn is_empty(&self) -> (r: bool)
        ensures
            r == self.spec_is_empty(),
    {
        self.bytes_added == 0 && self.bytes_released == 0 && self.initial_storage_usage.is_none()
    }

    /// Gives the meter up. Only an empty meter may be given up: one that
    /// still holds counts or is measuring would lose storage changes that
    /// nobody has paid for.
    pub fn discard(self) -> (r: Result<(), TrackerError>)
        ensures
            r is Ok <==> self.spec_is_empty(),
            r is Err ==> r == Err::<(), TrackerError>(TrackerError::NonTrackedChange),
    {
        if self.is_empty() {
            Ok(())
        } else {
            Err(TrackerError::NonTrackedChange)
        }
    }

    /// A scope that sees the host counter grow by `written` bytes adds
    /// exactly `written` to `bytes_added` and nothing to `bytes_released`.
    pub proof fn lemma_scope_measures_write(self, before: StorageUsage, written: StorageUsage)
        requires
            !self.is_active(),
            before + written <= StorageUsage::MAX,
            self.bytes_added + written <= StorageUsage::MAX,
        ensures
            self.spec_start(before).stop_fits((before + written) as StorageUsage),
            self.spec_start(before).spec_stop((before + written) as StorageUsage).bytes_added
                == self.bytes_added + written,
            self.spec_start(before).spec_stop((before + written) as StorageUsage).bytes_released
                == self.bytes_released,
            !self.spec_start(before).spec_stop((before + written) as StorageUsage).is_active(),
    {
    }

    /// A scope that sees the host counter fall by `deleted` bytes adds
    /// exactly `deleted` to `bytes_released` and nothing to `bytes_added`.
    pub proof fn lemma_scope_measures_delete(self, before: StorageUsage, deleted: StorageUsage)
        requires
            !self.is_active(),
            deleted <= before,
            self.bytes_released + deleted <= StorageUsage::MAX,
        ensures
            self.spec_start(before).stop_fits((before - deleted) as StorageUsage),
            self.spec_start(before).spec_stop((before - deleted) as StorageUsage).bytes_released
                == self.bytes_released + deleted,
            self.spec_start(before).spec_stop((before - deleted) as StorageUsage).bytes_added
                == self.bytes_added,
            !self.spec_start(before).spec_stop((before - deleted) as StorageUsage).is_active(),
    {
    }

    /// Writing `bytes` under a key that held nothing and, in a second scope,
    /// deleting that key again: the fresh meter of the first scope reads
    /// `bytes` added, the fresh meter of the second reads `bytes` released.
    pub proof fn lemma_write_then_delete(before: StorageUsage, bytes: StorageUsage)
        requires
            before + bytes <= StorageUsage::MAX,
        ensures
            Self::spec_new().spec_start(before).spec_stop(
                (before + bytes) as StorageUsage,
            ).bytes_added == bytes,
            Self::spec_new().spec_start(before).spec_stop(
                (before + bytes) as StorageUsage,
            ).bytes_released == 0,
            Self::spec_new().spec_start((before + bytes) as StorageUsage).spec_stop(
                before,
            ).bytes_released == bytes,
            Self::spec_new().spec_start((before + bytes) as StorageUsage).spec_stop(
                before,
            ).bytes_added == 0,
    {
    }
}

} // verus!
