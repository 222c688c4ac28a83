//! The decisions of the Vulkan interop path: GPU vendor from the PCI vendor
//! id, the memory type to allocate from, the DRM modifier to import with,
//! and the size of the persistent frame buffer.
use vstd::prelude::*;

use crate::types::error::{is_other_error, WaycapError};
use crate::types::video_frame::DmaBufPlane;

verus! {

/// GPU vendor, as reported by the Vulkan physical device.
#[derive(Debug, Clone, Copy, PartialEq, Eq, Structural)]
pub enum GpuVendor {
    NVIDIA,
    AMD,
    INTEL,
    UNKNOWN,
}

/// PCI vendor id of NVIDIA.
pub const NVIDIA_VENDOR_ID: u32 = 0x10DE;
/// PCI vendor id of AMD.
pub const AMD_VENDOR_ID: u32 = 0x1002;
/// PCI vendor id of Intel.
pub const INTEL_VENDOR_ID: u32 = 0x8086;

/// The vendor a PCI vendor id belongs to.
pub open spec fn vendor_of_id(id: u32) -> GpuVendor {
    if id == NVIDIA_VENDOR_ID {
        GpuVendor::NVIDIA
    } else if id == AMD_VENDOR_ID {
        GpuVendor::AMD
    } else if id == INTEL_VENDOR_ID {
        GpuVendor::INTEL
    } else {
        GpuVendor::UNKNOWN
    }
}

impl GpuVendor {
    /// The vendor of a PCI vendor id; unknown ids give `UNKNOWN`.
    pub fn from_vendor_id(id: u32) -> (v: GpuVendor)
        ensures
            v == vendor_of_id(id),
    {
        if id == NVIDIA_VENDOR_ID {
            GpuVendor::NVIDIA
        } else if id == AMD_VENDOR_ID {
            GpuVendor::AMD
        } else if id == INTEL_VENDOR_ID {
            GpuVendor::INTEL
        } else {
            GpuVendor::UNKNOWN
        }
    }
}

/// The vendor of the first physical device, given the vendor ids of the
/// devices in the order Vulkan enumerates them; `UNKNOWN` when there is none.
pub fn vendor_of_devices(vendor_ids: &[u32]) -> (v: GpuVendor)
    ensures
        vendor_ids@.len() == 0 ==> v == GpuVendor::UNKNOWN,
        vendor_ids@.len() > 0 ==> v == vendor_of_id(vendor_ids@[0]),
{
    if vendor_ids.len() == 0 {
        GpuVendor::UNKNOWN
    } else {
        GpuVendor::from_vendor_id(vendor_ids[0])
    }
}

/// The number of memory types a Vulkan device can report.
pub const MAX_MEMORY_TYPES: usize = 32;

/// Memory type `i`, with property flags `type_flags`, is allowed by
/// `type_filter` and has every property in `flags`.
pub open spec fn memory_type_suitable(type_filter: u32, type_flags: u32, flags: u32, i: u32) -> bool {
    &&& (type_filter & (1u32 << i)) != 0
    &&& (type_flags & flags) == flags
}

/// A memory type is suitable exactly when bit `i` of the filter is set and
/// its property flags hold every requested flag (bit by bit).
pub proof fn memory_type_suitable_law(type_filter: u32, type_flags: u32, flags: u32, i: u32)
    requires
        i < 32,
    ensures
        memory_type_suitable(type_filter, type_flags, flags, i) <==> (((type_filter >> i) & 1u32) == 1u32 && (
        type_flags | flags) == type_flags),
{
    assert(((type_filter & (1u32 << i)) != 0) <==> (((type_filter >> i) & 1u32) == 1u32)) by (bit_vector)
        requires
            i < 32,
    ;
    assert(((type_flags & flags) == flags) <==> ((type_flags | flags) == type_flags)) by (bit_vector);
}

/// The first memory type that the filter allows and that has all the
/// requested property flags. `memory_type_flags[i]` holds the property flags
/// of memory type `i`.
pub fn find_memory_type(memory_type_flags: &[u32], type_filter: u32, flags: u32) -> (r: Option<u32>)
    requires
        memory_type_flags@.len() <= MAX_MEMORY_TYPES,
    ensures
        r matches Some(i) ==> {
            &&& i < memory_type_flags@.len()
            &&& memory_type_suitable(type_filter, memory_type_flags@[i as int], flags, i)
            &&& forall|k: u32| k < i ==> !memory_type_suitable(type_filter, #[trigger] memory_type_flags@[k as int], flags, k)
        },
        r is None ==> forall|k: u32| k < memory_type_flags@.len() ==> !memory_type_suitable(
            type_filter,
            #[trigger] memory_type_flags@[k as int],
            flags,
            k,
        ),
{
    let count = memory_type_flags.len();
    let mut i: usize = 0;
    while i < count
        invariant
            count == memory_type_flags@.len(),
            count <= MAX_MEMORY_TYPES,
            i <= count,
            forall|k: u32| k < i ==> !memory_type_suitable(type_filter, #[trigger] memory_type_flags@[k as int], flags, k),
        decreases count - i,
    {
        let idx = i as u32;
        if (type_filter & (1u32 << idx)) != 0 && (memory_type_flags[i] & flags) == flags {
            return Some(idx);
        }
        i = i + 1;
    }
    None
}

/// The DRM modifier that marks an unknown buffer layout.
pub const DRM_FORMAT_MOD_INVALID: u64 = 0x00ff_ffff_ffff_ffff;

/// The modifier to import a DMA-BUF with: an invalid modifier is replaced by
/// the linear layout (0).
pub fn effective_modifier(modifier: u64) -> (m: u64)
    ensures
        modifier == DRM_FORMAT_MOD_INVALID ==> m == 0,
        modifier != DRM_FORMAT_MOD_INVALID ==> m == modifier,
{
    if modifier == DRM_FORMAT_MOD_INVALID {
        0
    } else {
        modifier
    }
}

/// Size in bytes of the persistent RGBA buffer of a `width` x `height` frame.
pub fn persistent_buffer_size(width: u32, height: u32) -> (size: u64)
    requires
        width * height * 4 <= u32::MAX,
    ensures
        size == width * height * 4,
{
    assert(width * height <= u32::MAX) by (nonlinear_arith)
        requires
            width * height * 4 <= u32::MAX,
    ;
    (width * height * 4) as u64
}

pub open spec fn no_planes_message() -> Seq<char> {
    "No DMA-BUF planes provided"@
}

/// The plane a DMA-BUF copy reads from: the first one.
pub fn first_plane(planes: &[DmaBufPlane]) -> (r: Result<DmaBufPlane, WaycapError>)
    ensures
        planes@.len() > 0 ==> r == Ok::<DmaBufPlane, WaycapError>(planes@[0]),
        planes@.len() == 0 ==> (r matches Err(e) && is_other_error(e, no_planes_message())),
{
    if planes.len() == 0 {
        Err(WaycapError::Other("No DMA-BUF planes provided".to_owned()))
    } else {
        Ok(planes[0])
    }
}

/// `VK_QUEUE_GRAPHICS_BIT`
pub const QUEUE_GRAPHICS_BIT: u32 = 0x1;
/// `VK_QUEUE_TRANSFER_BIT`
pub const QUEUE_TRANSFER_BIT: u32 = 0x4;

/// A queue family with these flags can both draw and transfer.
pub open spec fn graphics_and_transfer(flags: u32) -> bool {
    (flags & (QUEUE_GRAPHICS_BIT | QUEUE_TRANSFER_BIT)) == (QUEUE_GRAPHICS_BIT | QUEUE_TRANSFER_BIT)
}

/// Queue family `j` of device `i` can draw and transfer.
pub open spec fn suitable_family(devices: Seq<Vec<u32>>, i: int, j: int) -> bool {
    &&& 0 <= i < devices.len()
    &&& 0 <= j < devices[i]@.len()
    &&& graphics_and_transfer(devices[i]@[j])
}

/// A queue family is suitable exactly when both its graphics bit and its
/// transfer bit are set, whatever its other bits are.
pub proof fn graphics_and_transfer_law(flags: u32)
    ensures
        graphics_and_transfer(flags) <==> ((flags & 1u32) != 0 && (flags & 4u32) != 0),
        graphics_and_transfer(flags) <==> graphics_and_transfer(flags | !5u32),
{
    assert(((flags & (1u32 | 4u32)) == (1u32 | 4u32)) <==> ((flags & 1u32) != 0 && (flags & 4u32) != 0))
        by (bit_vector);
    assert(((flags & (1u32 | 4u32)) == (1u32 | 4u32)) <==> (((flags | !5u32) & (1u32 | 4u32)) == (1u32 | 4u32)))
        by (bit_vector);
}

/// Family `j` of device `i` is suitable exactly when it exists and has
/// both the graphics and the transfer bit.
pub proof fn suitable_family_law(devices: Seq<Vec<u32>>, i: int, j: int)
    ensures
        suitable_family(devices, i, j) <==> (0 <= i < devices.len() && 0 <= j < devices[i]@.len()
            && (devices[i]@[j] & 1u32) != 0 && (devices[i]@[j] & 4u32) != 0),
{
    if 0 <= i < devices.len() && 0 <= j < devices[i]@.len() {
        graphics_and_transfer_law(devices[i]@[j]);
    }
}

/// `(i, j)` comes before `(k, l)` in device-then-family order.
pub open spec fn before(i: int, j: int, k: int, l: int) -> bool {
    i < k || (i == k && j < l)
}

pub open spec fn no_devices_message() -> Seq<char> {
    "No Vulkan physical devices found"@
}

pub open spec fn no_queue_family_message() -> Seq<char> {
    "No suitable Vulkan queue family found"@
}

/// The device and queue family to use: the first family, over the devices in
/// the order Vulkan lists them, that supports graphics and transfer.
/// `devices[i][j]` holds the flags of family `j` of device `i`.
pub fn select_queue_family(devices: &Vec<Vec<u32>>) -> (r: Result<(usize, u32), WaycapError>)
    requires
        forall|i: int| 0 <= i < devices@.len() ==> #[trigger] devices@[i]@.len() <= u32::MAX,
    ensures
        devices@.len() == 0 ==> (r matches Err(e) && is_other_error(e, no_devices_message())),
        r matches Ok((i, j)) ==> {
            &&& suitable_family(devices@, i as int, j as int)
            &&& forall|k: int, l: int| #[trigger] suitable_family(devices@, k, l) ==> !before(k, l, i as int, j as int)
        },
        devices@.len() > 0 && r is Err ==> {
            &&& r matches Err(e) && is_other_error(e, no_queue_family_message())
            &&& forall|k: int, l: int| !#[trigger] suitable_family(devices@, k, l)
        },
{
    let n = devices.len();
    if n == 0 {
        return Err(WaycapError::Other("No Vulkan physical devices found".to_owned()));
    }
    let mut i: usize = 0;
    while i < n
        invariant
            n == devices@.len(),
            i <= n,
            forall|k: int| 0 <= k < devices@.len() ==> #[trigger] devices@[k]@.len() <= u32::MAX,
            forall|k: int, l: int| 0 <= k < i ==> !#[trigger] suitable_family(devices@, k, l),
        decreases n - i,
    {
        let families = &devices[i];
        let m = families.len();
        let mut j: usize = 0;
        while j < m
            invariant
                n == devices@.len(),
                i < n,
                families@ == devices@[i as int]@,
                m == families@.len(),
                m <= u32::MAX,
                j <= m,
                forall|k: int, l: int| 0 <= k < i ==> !#[trigger] suitable_family(devices@, k, l),
                forall|l: int| 0 <= l < j ==> !#[trigger] suitable_family(devices@, i as int, l),
            decreases m - j,
        {
            if (families[j] & (QUEUE_GRAPHICS_BIT | QUEUE_TRANSFER_BIT)) == (QUEUE_GRAPHICS_BIT | QUEUE_TRANSFER_BIT) {
                assert(suitable_family(devices@, i as int, j as int));
                return Ok((i, j as u32));
            }
            j = j + 1;
        }
        i = i + 1;
    }
    Err(WaycapError::Other("No suitable Vulkan queue family found".to_owned()))
}

} // verus!
