use vstd::prelude::*;

verus! {

/// Cumulative allocator counters read at one moment: everything allocated and
/// freed since the process started.
#[derive(Clone, Copy, Debug, PartialEq, Eq, Structural)]
pub struct Snapshot {
    pub allocated_bytes: u64,
    pub freed_bytes: u64,
    pub allocated_objects: u64,
    pub freed_objects: u64,
}

/// What was allocated and freed between two snapshots.
#[derive(Clone, Copy, Debug, PartialEq, Eq, Structural)]
pub struct AllocationStats {
    pub allocated_bytes: u64,
    pub freed_bytes: u64,
    pub allocated_objects: u64,
    pub freed_objects: u64,
}

/// `|x|`
pub open spec fn abs(x: int) -> int {
    if x < 0 {
        -x
    } else {
        x
    }
}

impl Snapshot {
    /// No counter of `self` is above the same counter of `later`.
    pub open spec fn precedes(self, later: Snapshot) -> bool {
        &&& self.allocated_bytes <= later.allocated_bytes
        &&& self.freed_bytes <= later.freed_bytes
        &&& self.allocated_objects <= later.allocated_objects
        &&& self.freed_objects <= later.freed_objects
    }

    /// Bytes allocated and not yet freed.
    pub open spec fn live(self) -> int {
        self.allocated_bytes - self.freed_bytes
    }

    pub fn is_before(&self, later: &Snapshot) -> (r: bool)
        ensures
            r == self.precedes(*later),
    {
        self.allocated_bytes <= later.allocated_bytes && self.freed_bytes <= later.freed_bytes
            && self.allocated_objects <= later.allocated_objects && self.freed_objects
            <= later.freed_objects
    }

    /// What was allocated and freed from `since` up to `self`.
    pub fn delta(&self, since: &Snapshot) -> (r: AllocationStats)
        requires
            since.precedes(*self),
        ensures
            r.allocated_bytes == self.allocated_bytes - since.allocated_bytes,
            r.freed_bytes == self.freed_bytes - since.freed_bytes,
            r.allocated_objects == self.allocated_objects - since.allocated_objects,
            r.freed_objects == self.freed_objects - since.freed_objects,
    {
        AllocationStats {
            allocated_bytes: self.allocated_bytes - since.allocated_bytes,
            freed_bytes: self.freed_bytes - since.freed_bytes,
            allocated_objects: self.allocated_objects - since.allocated_objects,
            freed_objects: self.freed_objects - since.freed_objects,
        }
    }

    /// Bytes allocated and not yet freed, which is negative when more was freed
    /// than allocated since counting started.
    pub fn live_bytes(&self) -> (r: i128)
        ensures
            r == self.live(),
    {
        self.allocated_bytes as i128 - self.freed_bytes as i128
    }
}

impl AllocationStats {
    /// Bytes allocated minus bytes freed.
    pub fn net_bytes(&self) -> (r: i128)
        ensures
            r == self.allocated_bytes - self.freed_bytes,
    {
        self.allocated_bytes as i128 - self.freed_bytes as i128
    }

    /// Objects allocated minus objects freed.
    pub fn net_objects(&self) -> (r: i128)
        ensures
            r == self.allocated_objects - self.freed_objects,
    {
        self.allocated_objects as i128 - self.freed_objects as i128
    }
}

/// Whether the live bytes of `after` differ from those of `baseline` by
/// `tolerance` or more: a drift that large after teardown points to a leak.
pub fn drift_exceeds(baseline: &Snapshot, after: &Snapshot, tolerance: u64) -> (r: bool)
    ensures
        r == (abs(after.live() - baseline.live()) >= tolerance),
{
    let d = after.live_bytes() - baseline.live_bytes();
    let m = if d < 0 {
        -d
    } else {
        d
    };
    m >= tolerance as i128
}

} // verus!
