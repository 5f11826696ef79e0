//! Choosing the device and the queue family.
//!
//! The devices are described by plain values, in the order in which the
//! platform lists them. The choice falls on the first device that has a
//! queue family able to run compute work, and on the first such family of
//! that device. There is no second choice: if that device lacks the
//! storage-buffer capability, the search ends in failure.

use crate::failure::Failure;
use vstd::prelude::*;

verus! {

/// One queue family of a device.
#[derive(Clone, Copy, Debug, PartialEq, Eq, Structural)]
pub struct QueueFamilyInfo {
    /// Whether queues of this family run compute work.
    pub supports_compute: bool,
}

/// One device, as far as the choice depends on it.
#[derive(Debug)]
pub struct DeviceInfo {
    /// The queue families, in the device's own order.
    pub queue_families: Vec<QueueFamilyInfo>,
    /// Whether buffers can be bound as storage buffers.
    pub supports_storage_buffers: bool,
}

/// The device and queue family that the tracer works on, by their indices.
#[derive(Clone, Copy, Debug, PartialEq, Eq, Structural)]
pub struct DeviceSelection {
    pub device: usize,
    pub queue_family: usize,
}

/// What is asked of the platform when the device is created.
#[derive(Clone, Copy, Debug, PartialEq, Eq, Structural)]
pub struct DeviceRequest {
    pub selection: DeviceSelection,
    /// The number of queues asked of the family.
    pub queue_count: u32,
    /// The priority of the queue, in thousandths.
    pub queue_priority: i64,
    /// Whether the storage-buffer capability is asked for. No other
    /// capability is.
    pub storage_buffers: bool,
}

impl DeviceSelection {
    /// What is asked for on this device: one queue of the chosen family, at
    /// a priority of one half, and the storage-buffer capability.
    pub open spec fn spec_request(self) -> DeviceRequest {
        DeviceRequest {
            selection: self,
            queue_count: 1,
            queue_priority: 500,
            storage_buffers: true,
        }
    }

    #[verifier::when_used_as_spec(spec_request)]
    pub fn request(self) -> (request: DeviceRequest)
        ensures
            request == self.spec_request(),
    {
        DeviceRequest {
            selection: self,
            queue_count: 1,
            queue_priority: 500,
            storage_buffers: true,
        }
    }
}

/// Whether `k` is the index of the first compute-capable family in `families`.
pub open spec fn is_first_compute_family(families: Seq<QueueFamilyInfo>, k: int) -> bool {
    &&& 0 <= k < families.len()
    &&& families[k].supports_compute
    &&& forall|j: int| 0 <= j < k ==> !(#[trigger] families[j]).supports_compute
}

/// Whether some family in `families` runs compute work.
pub open spec fn has_compute_family(families: Seq<QueueFamilyInfo>) -> bool {
    exists|k: int| 0 <= k < families.len() && (#[trigger] families[k]).supports_compute
}

/// Whether `i` is the index of the first device in `devices` that has a
/// compute-capable queue family.
pub open spec fn is_first_compute_device(devices: Seq<DeviceInfo>, i: int) -> bool {
    &&& 0 <= i < devices.len()
    &&& has_compute_family(devices[i].queue_families@)
    &&& forall|j: int| 0 <= j < i ==> !has_compute_family((#[trigger] devices[j]).queue_families@)
}

/// The index of the first compute-capable family of `families`, if any.
pub open spec fn first_compute_family_of(families: Seq<QueueFamilyInfo>) -> Option<int> {
    if exists|k: int| is_first_compute_family(families, k) {
        Some(choose|k: int| is_first_compute_family(families, k))
    } else {
        None
    }
}

/// The index of the first device of `devices` that has a compute-capable
/// family, if any.
pub open spec fn first_compute_device_of(devices: Seq<DeviceInfo>) -> Option<int> {
    if exists|i: int| is_first_compute_device(devices, i) {
        Some(choose|i: int| is_first_compute_device(devices, i))
    } else {
        None
    }
}

/// What [`select_device`] returns for `devices`. (The first device with a
/// compute-capable family always has a first such family: the inner `None`
/// never arises.)
pub open spec fn selection_of(devices: Seq<DeviceInfo>) -> Result<DeviceSelection, Failure> {
    if devices.len() == 0 {
        Err(Failure::NoDevice)
    } else {
        match first_compute_device_of(devices) {
            None => Err(Failure::NoComputeQueue),
            Some(i) => if !devices[i].supports_storage_buffers {
                Err(Failure::MissingCapability)
            } else {
                match first_compute_family_of(devices[i].queue_families@) {
                    None => Err(Failure::NoComputeQueue),
                    Some(k) => Ok(DeviceSelection { device: i as usize, queue_family: k as usize }),
                }
            },
        }
    }
}

/// At most one index is that of the first compute-capable family.
pub proof fn lemma_first_compute_family_unique(families: Seq<QueueFamilyInfo>, a: int, b: int)
    requires
        is_first_compute_family(families, a),
        is_first_compute_family(families, b),
    ensures
        a == b,
{
}

/// At most one index is that of the first device with a compute-capable family.
pub proof fn lemma_first_compute_device_unique(devices: Seq<DeviceInfo>, a: int, b: int)
    requires
        is_first_compute_device(devices, a),
        is_first_compute_device(devices, b),
    ensures
        a == b,
{
}

/// The index of the first compute-capable family, if there is one.
pub fn first_compute_family(families: &Vec<QueueFamilyInfo>) -> (found: Option<usize>)
    ensures
        match found {
            Some(k) => first_compute_family_of(families@) == Some(k as int),
            None => first_compute_family_of(families@).is_none(),
        },
        found is Some <==> has_compute_family(families@),
        found matches Some(k) ==> is_first_compute_family(families@, k as int),
{
    let mut k: usize = 0;
    while k < families.len()
        invariant
            k <= families.len(),
            forall|j: int| 0 <= j < k ==> !(#[trigger] families@[j]).supports_compute,
        decreases families.len() - k,
    {
        if families[k].supports_compute {
            proof {
                assert(is_first_compute_family(families@, k as int));
                let c = choose|c: int| is_first_compute_family(families@, c);
                lemma_first_compute_family_unique(families@, c, k as int);
            }
            return Some(k);
        }
        k += 1;
    }
    proof {
        assert forall|c: int| !is_first_compute_family(families@, c) by {}
    }
    None
}

/// Chooses the device and the queue family.
///
/// Fails with `NoDevice` when the list is empty, with `NoComputeQueue` when
/// no device has a compute-capable family, and with `MissingCapability` when
/// the first device that has one cannot bind storage buffers.
pub fn select_device(devices: &Vec<DeviceInfo>) -> (chosen: Result<DeviceSelection, Failure>)
    ensures
        chosen == selection_of(devices@),
        chosen matches Ok(selection) ==> {
            &&& is_first_compute_device(devices@, selection.device as int)
            &&& is_first_compute_family(
                devices@[selection.device as int].queue_families@,
                selection.queue_family as int,
            )
            &&& devices@[selection.device as int].supports_storage_buffers
        },
        chosen is Ok <==> exists|i: int|
            #[trigger] is_first_compute_device(devices@, i) && devices@[i].supports_storage_buffers,
        chosen == Err::<DeviceSelection, Failure>(Failure::NoDevice) <==> devices@.len() == 0,
        chosen == Err::<DeviceSelection, Failure>(Failure::NoComputeQueue) <==> devices@.len() > 0
            && forall|i: int|
            0 <= i < devices@.len() ==> !has_compute_family(
                (#[trigger] devices@[i]).queue_families@,
            ),
        chosen == Err::<DeviceSelection, Failure>(Failure::MissingCapability) <==> exists|i: int|
            #[trigger] is_first_compute_device(devices@, i)
                && !devices@[i].supports_storage_buffers,
{
    if devices.len() == 0 {
        proof {
            assert forall|c: int| !is_first_compute_device(devices@, c) by {}
        }
        return Err(Failure::NoDevice);
    }
    let mut i: usize = 0;
    while i < devices.len()
        invariant
            0 < devices.len(),
            i <= devices.len(),
            forall|j: int| 0 <= j < i ==> !has_compute_family(
                (#[trigger] devices@[j]).queue_families@,
            ),
        decreases devices.len() - i,
    {
        match first_compute_family(&devices[i].queue_families) {
            Some(k) => {
                proof {
                    assert(is_first_compute_device(devices@, i as int));
                    assert forall|c: int| is_first_compute_device(devices@, c) implies c == i by {
                        lemma_first_compute_device_unique(devices@, c, i as int);
                    }
                }
                if devices[i].supports_storage_buffers {
                    return Ok(DeviceSelection { device: i, queue_family: k });
                } else {
                    return Err(Failure::MissingCapability);
                }
            },
            None => {},
        }
        i += 1;
    }
    proof {
        assert forall|c: int| !is_first_compute_device(devices@, c) by {}
    }
    Err(Failure::NoComputeQueue)
}

} // verus!
