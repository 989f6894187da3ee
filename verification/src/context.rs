//! Choosing the physical device the engine renders on.
//!
//! The embedder enumerates the machine's devices and queue families and
//! hands their properties in as plain values; this module holds the
//! verified choice: a device is eligible when it carries the required
//! extensions and has a queue family that both matches the required flags
//! and can present to the surface, and among the eligible devices the one
//! with the best (lowest) score wins — discrete silicon first, software
//! last. Ties go to the device enumerated first.

use vstd::prelude::*;

verus! {

/// The kind of a physical device, best first in preference order.
#[derive(Clone, Copy, PartialEq, Eq, Structural, Debug)]
pub enum DeviceType {
    DiscreteGpu,
    IntegratedGpu,
    VirtualGpu,
    Cpu,
    Other,
}

/// One queue family of a device: its capability flags (a bitmask in the
/// graphics API's encoding) and whether it can present to the surface.
#[derive(Clone, Copy, PartialEq, Eq, Structural, Debug)]
pub struct QueueFamily {
    pub flags: u32,
    pub surface_support: bool,
}

/// What the engine needs to know of one physical device.
pub struct DeviceInfo {
    pub device_type: DeviceType,
    /// Whether the device supports every extension the engine requires.
    pub has_required_extensions: bool,
    pub queue_families: Vec<QueueFamily>,
}

/// How preferable a device kind is: lower is better.
pub open spec fn spec_device_score(t: DeviceType) -> u8 {
    match t {
        DeviceType::DiscreteGpu => 0,
        DeviceType::IntegratedGpu => 1,
        DeviceType::VirtualGpu => 2,
        DeviceType::Cpu => 3,
        DeviceType::Other => 4,
    }
}

pub fn device_score(device: &DeviceInfo) -> (r: u8)
    ensures
        r == spec_device_score(device.device_type),
{
    match device.device_type {
        DeviceType::DiscreteGpu => 0,
        DeviceType::IntegratedGpu => 1,
        DeviceType::VirtualGpu => 2,
        DeviceType::Cpu => 3,
        DeviceType::Other => 4,
    }
}

/// Whether a queue family satisfies the engine: all required flag bits set,
/// and able to present.
pub open spec fn spec_family_suitable(family: QueueFamily, required_flags: u32) -> bool {
    family.flags & required_flags == required_flags && family.surface_support
}

/// The index of the device's first queue family that carries the required
/// flags and presents to the surface, if any.
pub fn find_suitable_queue_family(device: &DeviceInfo, required_flags: u32) -> (r: Option<usize>)
    ensures
        match r {
            Some(i) => {
                &&& i < device.queue_families@.len()
                &&& spec_family_suitable(device.queue_families@[i as int], required_flags)
                &&& forall|j: int|
                    0 <= j < i ==> !spec_family_suitable(
                        #[trigger] device.queue_families@[j],
                        required_flags,
                    )
            },
            None => forall|j: int|
                0 <= j < device.queue_families@.len() ==> !spec_family_suitable(
                    #[trigger] device.queue_families@[j],
                    required_flags,
                ),
        },
{
    let count = device.queue_families.len();
    let mut i: usize = 0;
    while i < count
        invariant
            count == device.queue_families@.len(),
            i <= count,
            forall|j: int|
                0 <= j < i ==> !spec_family_suitable(
                    #[trigger] device.queue_families@[j],
                    required_flags,
                ),
        decreases count - i,
    {
        let family = device.queue_families[i];
        if family.flags & required_flags == required_flags && family.surface_support {
            return Some(i);
        }
        i = i + 1;
    }
    None
}

/// Whether a device can serve the engine at all.
pub open spec fn spec_device_eligible(d: DeviceInfo, required_flags: u32) -> bool {
    &&& d.has_required_extensions
    &&& exists|j: int|
        0 <= j < d.queue_families@.len() && spec_family_suitable(
            #[trigger] d.queue_families@[j],
            required_flags,
        )
}

/// Picks the device to render on: among the eligible devices the one with
/// the lowest score, ties broken towards the earliest enumerated, together
/// with its first suitable queue family. `None` exactly when no device is
/// eligible.
pub fn select_physical_device(devices: &Vec<DeviceInfo>, required_flags: u32) -> (r: Option<
    (usize, usize),
>)
    ensures
        match r {
            Some((d, q)) => {
                &&& d < devices@.len()
                &&& spec_device_eligible(devices@[d as int], required_flags)
                &&& q < devices@[d as int].queue_families@.len()
                &&& spec_family_suitable(
                    devices@[d as int].queue_families@[q as int],
                    required_flags,
                )
                &&& forall|j: int|
                    0 <= j < q ==> !spec_family_suitable(
                        #[trigger] devices@[d as int].queue_families@[j],
                        required_flags,
                    )
                &&& forall|x: int|
                    0 <= x < devices@.len() && spec_device_eligible(
                        #[trigger] devices@[x],
                        required_flags,
                    ) ==> spec_device_score(devices@[d as int].device_type) <= spec_device_score(
                        devices@[x].device_type,
                    )
                &&& forall|x: int|
                    0 <= x < d && spec_device_eligible(#[trigger] devices@[x], required_flags)
                        ==> spec_device_score(devices@[d as int].device_type) < spec_device_score(
                        devices@[x].device_type,
                    )
            },
            None => forall|x: int|
                0 <= x < devices@.len() ==> !spec_device_eligible(
                    #[trigger] devices@[x],
                    required_flags,
                ),
        },
{
    let count = devices.len();
    let mut best: Option<(usize, usize)> = None;
    let mut x: usize = 0;
    while x < count
        invariant
            count == devices@.len(),
            x <= count,
            match best {
                Some((d, q)) => {
                    &&& d < x
                    &&& spec_device_eligible(devices@[d as int], required_flags)
                    &&& q < devices@[d as int].queue_families@.len()
                    &&& spec_family_suitable(
                        devices@[d as int].queue_families@[q as int],
                        required_flags,
                    )
                    &&& forall|j: int|
                        0 <= j < q ==> !spec_family_suitable(
                            #[trigger] devices@[d as int].queue_families@[j],
                            required_flags,
                        )
                    &&& forall|y: int|
                        0 <= y < x && spec_device_eligible(#[trigger] devices@[y], required_flags)
                            ==> spec_device_score(devices@[d as int].device_type)
                            <= spec_device_score(devices@[y].device_type)
                    &&& forall|y: int|
                        0 <= y < d && spec_device_eligible(#[trigger] devices@[y], required_flags)
                            ==> spec_device_score(devices@[d as int].device_type)
                            < spec_device_score(devices@[y].device_type)
                },
                None => forall|y: int|
                    0 <= y < x ==> !spec_device_eligible(#[trigger] devices@[y], required_flags),
            },
        decreases count - x,
    {
        let device = &devices[x];
        if device.has_required_extensions {
            match find_suitable_queue_family(device, required_flags) {
                Some(q) => {
                    proof {
                        assert(spec_device_eligible(devices@[x as int], required_flags));
                    }
                    let score = device_score(device);
                    let better = match best {
                        Some((d, _)) => score < device_score(&devices[d]),
                        None => true,
                    };
                    if better {
                        best = Some((x, q));
                    }
                },
                None => {
                    proof {
                        assert(!spec_device_eligible(devices@[x as int], required_flags));
                    }
                },
            }
        } else {
            proof {
                assert(!spec_device_eligible(devices@[x as int], required_flags));
            }
        }
        x = x + 1;
    }
    best
}

} // verus!
