//! Picking a capable physical device.
//!
//! The host program enumerates the devices the instance offers and describes
//! each one with plain values; the selection itself — eligibility, queue
//! family choice, and the device-type preference order — is decided here.

use vstd::prelude::*;

verus! {

/// The broad class of a physical device, in the order the renderer prefers
/// them.
#[derive(Clone, Copy, Debug, PartialEq, Eq, Structural)]
pub enum DeviceKind {
    Discrete,
    Integrated,
    Virtual,
    Cpu,
    Other,
}

/// The preference rank of a device kind; lower is better.
pub open spec fn kind_rank(kind: DeviceKind) -> int {
    match kind {
        DeviceKind::Discrete => 0,
        DeviceKind::Integrated => 1,
        DeviceKind::Virtual => 2,
        DeviceKind::Cpu => 3,
        DeviceKind::Other => 4,
    }
}

/// The preference rank of a device kind; lower is better.
pub fn device_type_rank(kind: DeviceKind) -> (rank: u32)
    ensures
        rank == kind_rank(kind),
{
    match kind {
        DeviceKind::Discrete => 0,
        DeviceKind::Integrated => 1,
        DeviceKind::Virtual => 2,
        DeviceKind::Cpu => 3,
        DeviceKind::Other => 4,
    }
}

/// What the renderer needs to know about one queue family.
#[derive(Clone, Copy, Debug, PartialEq, Eq, Structural)]
pub struct QueueFamily {
    /// Whether the family supports graphics work.
    pub graphics: bool,
    /// Whether the family can present to the target surface.
    pub surface_support: bool,
}

/// What the renderer needs to know about one physical device.
pub struct PhysicalDeviceInfo {
    pub kind: DeviceKind,
    /// Whether the device supports every extension the renderer requires.
    pub supports_required_extensions: bool,
    /// The device's queue families, in the order the device reports them.
    pub queue_families: Vec<QueueFamily>,
}

/// A queue family is suitable when it can both run graphics work and present
/// to the surface.
pub open spec fn family_suitable(family: QueueFamily) -> bool {
    family.graphics && family.surface_support
}

/// `q` is the first suitable queue family of `families`.
pub open spec fn is_first_suitable(families: Seq<QueueFamily>, q: int) -> bool {
    &&& 0 <= q < families.len()
    &&& family_suitable(families[q])
    &&& forall|j: int| 0 <= j < q ==> !family_suitable(#[trigger] families[j])
}

/// A device is eligible when it supports the required extensions and has at
/// least one suitable queue family.
pub open spec fn device_eligible(device: PhysicalDeviceInfo) -> bool {
    &&& device.supports_required_extensions
    &&& exists|q: int|
        0 <= q < device.queue_families@.len()
            && family_suitable(#[trigger] device.queue_families@[q])
}

/// The index of the first queue family that is suitable, if any is.
fn first_suitable_family(families: &Vec<QueueFamily>) -> (r: Option<usize>)
    ensures
        match r {
            Some(q) => is_first_suitable(families@, q as int),
            None => forall|j: int|
                0 <= j < families@.len() ==> !family_suitable(#[trigger] families@[j]),
        },
{
    let mut i: usize = 0;
    while i < families.len()
        invariant
            i <= families@.len(),
            forall|j: int| 0 <= j < i ==> !family_suitable(#[trigger] families@[j]),
        decreases families@.len() - i,
    {
        let family = families[i];
        if family.graphics && family.surface_support {
            return Some(i);
        }
        i = i + 1;
    }
    None
}

/// Picks the physical device to create the logical device on: among the
/// eligible devices — those that support the required extensions and have a
/// queue family that can both run graphics and present to the surface — the
/// first one of the most preferred kind, together with its first suitable
/// queue family. Returns `None` exactly when no device is eligible.
pub fn select_physical_device(devices: &Vec<PhysicalDeviceInfo>) -> (r: Option<(usize, usize)>)
    ensures
        r is None <==> forall|e: int|
            0 <= e < devices@.len() ==> !device_eligible(#[trigger] devices@[e]),
        r matches Some((d, q)) ==> {
            &&& 0 <= (d as int) < devices@.len()
            &&& device_eligible(devices@[d as int])
            &&& is_first_suitable(devices@[d as int].queue_families@, q as int)
            &&& forall|e: int|
                0 <= e < devices@.len() && device_eligible(#[trigger] devices@[e])
                    ==> kind_rank(devices@[d as int].kind) <= kind_rank(devices@[e].kind)
            &&& forall|e: int|
                0 <= e < d && device_eligible(#[trigger] devices@[e])
                    ==> kind_rank(devices@[e].kind) > kind_rank(devices@[d as int].kind)
        },
{
    let mut best: Option<(usize, usize)> = None;
    let mut best_rank: u32 = 0;
    let mut d: usize = 0;
    while d < devices.len()
        invariant
            d <= devices@.len(),
            best is None ==> forall|e: int|
                0 <= e < d ==> !device_eligible(#[trigger] devices@[e]),
            best matches Some((bd, bq)) ==> {
                &&& 0 <= (bd as int) < d
                &&& device_eligible(devices@[bd as int])
                &&& is_first_suitable(devices@[bd as int].queue_families@, bq as int)
                &&& best_rank == kind_rank(devices@[bd as int].kind)
                &&& forall|e: int|
                    0 <= e < d && device_eligible(#[trigger] devices@[e])
                        ==> best_rank <= kind_rank(devices@[e].kind)
                &&& forall|e: int|
                    0 <= e < bd && device_eligible(#[trigger] devices@[e])
                        ==> kind_rank(devices@[e].kind) > best_rank
            },
        decreases devices@.len() - d,
    {
        let device = &devices[d];
        if device.supports_required_extensions {
            match first_suitable_family(&device.queue_families) {
                Some(q) => {
                    let rank = device_type_rank(device.kind);
                    match best {
                        None => {
                            best = Some((d, q));
                            best_rank = rank;
                        },
                        Some(_) => {
                            if rank < best_rank {
                                best = Some((d, q));
                                best_rank = rank;
                            }
                        },
                    }
                },
                None => {},
            }
        }
        d = d + 1;
    }
    best
}

} // verus!
