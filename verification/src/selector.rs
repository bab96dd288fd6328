//! Device selector: a pure, stable selection over a snapshot of the
//! enumerated accelerators. The chosen queue class must support general
//! compute dispatch; a dedicated (discrete) device is preferred over an
//! integrated one; memory types are unconstrained. Given the same
//! enumerated list, the same device/queue pair is always chosen: the first
//! match in enumeration order after filtering.

use vstd::prelude::*;
use crate::CipherError;

verus! {

/// One execution-queue class of a device, with its capability flags.
#[derive(Debug, Clone, Copy, PartialEq, Eq, Structural)]
pub struct QueueClass {
    /// Whether the class can dispatch general compute work.
    pub supports_compute: bool,
}

/// One memory type a device exposes, with its domain flags.
#[derive(Debug, Clone, Copy, PartialEq, Eq, Structural)]
pub struct MemoryClass {
    /// Directly addressable by the controlling process.
    pub host_visible: bool,
    /// Addressable only by the device's execution units.
    pub device_local: bool,
}

/// What the hardware-enumeration collaborator reports for one device.
#[derive(Debug)]
pub struct DeviceProfile {
    /// A dedicated (discrete) device, as opposed to an integrated one.
    pub dedicated: bool,
    /// The device's execution-queue classes, in enumeration order.
    pub queue_classes: Vec<QueueClass>,
    /// The device's memory types, in enumeration order.
    pub memory_classes: Vec<MemoryClass>,
}

/// The outcome of selection: an index into the enumerated list and an index
/// into that device's queue classes.
#[derive(Debug, Clone, Copy, PartialEq, Eq, Structural)]
pub struct DeviceSelection {
    /// Index of the chosen device in the enumerated list.
    pub device: usize,
    /// Index of the chosen queue class on that device.
    pub queue: usize,
}

/// A device is suitable when some queue class of it supports compute.
pub open spec fn spec_device_fits(d: DeviceProfile) -> bool {
    exists|i: int| 0 <= i < d.queue_classes@.len() && d.queue_classes@[i].supports_compute
}

/// `q` is the first compute-capable queue class of `d`.
pub open spec fn spec_first_compute_queue(d: DeviceProfile, q: int) -> bool {
    &&& 0 <= q < d.queue_classes@.len()
    &&& d.queue_classes@[q].supports_compute
    &&& forall|j: int| 0 <= j < q ==> !d.queue_classes@[j].supports_compute
}

/// `d` is the device the policy chooses from `list`: the first suitable
/// dedicated device if any device is both dedicated and suitable, otherwise
/// the first suitable device of any kind.
pub open spec fn spec_selected_device(list: Seq<DeviceProfile>, d: int) -> bool {
    &&& 0 <= d < list.len()
    &&& spec_device_fits(list[d])
    &&& if exists|i: int| 0 <= i < list.len() && list[i].dedicated && spec_device_fits(list[i]) {
            &&& list[d].dedicated
            &&& forall|j: int| 0 <= j < d ==> !(list[j].dedicated && spec_device_fits(list[j]))
        } else {
            forall|j: int| 0 <= j < d ==> !spec_device_fits(list[j])
        }
}

/// The first compute-capable queue class of `dev`, if it has one.
fn find_compute_queue(dev: &DeviceProfile) -> (r: Option<usize>)
    ensures
        r is Some <==> spec_device_fits(*dev),
        r is Some ==> spec_first_compute_queue(*dev, r->0 as int),
{
    let mut i: usize = 0;
    while i < dev.queue_classes.len()
        invariant
            i <= dev.queue_classes@.len(),
            forall|j: int| 0 <= j < i ==> !dev.queue_classes@[j].supports_compute,
        decreases dev.queue_classes@.len() - i,
    {
        if dev.queue_classes[i].supports_compute {
            return Some(i);
        }
        i = i + 1;
    }
    None
}

/// Select a device and queue class from the enumerated snapshot.
///
/// Succeeds if and only if some device has a compute-capable queue class;
/// the result is the policy's unique stable choice. Fails with
/// `NoSuitableDevice` otherwise. Pure: the snapshot is not modified.
pub fn select_device(list: &Vec<DeviceProfile>) -> (r: Result<DeviceSelection, CipherError>)
    ensures
        r is Ok <==> exists|i: int| 0 <= i < list@.len() && spec_device_fits(list@[i]),
        r is Ok ==> spec_selected_device(list@, r->Ok_0.device as int)
            && spec_first_compute_queue(list@[r->Ok_0.device as int], r->Ok_0.queue as int),
        r is Err ==> r->Err_0 == CipherError::NoSuitableDevice,
{
    let mut i: usize = 0;
    while i < list.len()
        invariant
            i <= list@.len(),
            forall|j: int| 0 <= j < i ==> !(list@[j].dedicated && spec_device_fits(list@[j])),
        decreases list@.len() - i,
    {
        if list[i].dedicated {
            if let Some(q) = find_compute_queue(&list[i]) {
                return Ok(DeviceSelection { device: i, queue: q });
            }
        }
        i = i + 1;
    }

    let mut k: usize = 0;
    while k < list.len()
        invariant
            k <= list@.len(),
            forall|j: int| 0 <= j < list@.len() ==> !(list@[j].dedicated && spec_device_fits(list@[j])),
            forall|j: int| 0 <= j < k ==> !spec_device_fits(list@[j]),
        decreases list@.len() - k,
    {
        if let Some(q) = find_compute_queue(&list[k]) {
            return Ok(DeviceSelection { device: k, queue: q });
        }
        k = k + 1;
    }

    Err(CipherError::NoSuitableDevice)
}

/// Selection is stable: for one enumerated snapshot the policy admits
/// exactly one device index and, on it, exactly one queue index — the
/// same list always yields the same device/queue pair.
pub proof fn lemma_selection_is_stable(
    list: Seq<DeviceProfile>,
    d1: int,
    d2: int,
    q1: int,
    q2: int,
)
    requires
        spec_selected_device(list, d1),
        spec_selected_device(list, d2),
        spec_first_compute_queue(list[d1], q1),
        spec_first_compute_queue(list[d2], q2),
    ensures
        d1 == d2,
        q1 == q2,
{
    if d1 < d2 {
        assert(!spec_device_fits(list[d1]) || !(list[d1].dedicated && spec_device_fits(list[d1])));
    }
    if d2 < d1 {
        assert(!spec_device_fits(list[d2]) || !(list[d2].dedicated && spec_device_fits(list[d2])));
    }
    assert(d1 == d2);
    if q1 < q2 {
        assert(!list[d2].queue_classes@[q1].supports_compute);
    }
    if q2 < q1 {
        assert(!list[d1].queue_classes@[q2].supports_compute);
    }
}

} // verus!
