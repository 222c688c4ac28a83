use waycap_rs::types::error::WaycapError;
use waycap_rs::types::video_frame::DmaBufPlane;
use waycap_rs::waycap_vulkan::{
    effective_modifier, find_memory_type, first_plane, persistent_buffer_size, vendor_of_devices,
    select_queue_family, GpuVendor, DRM_FORMAT_MOD_INVALID,
};

#[test]
fn vendor_ids() {
    assert_eq!(GpuVendor::from_vendor_id(0x10DE), GpuVendor::NVIDIA);
    assert_eq!(GpuVendor::from_vendor_id(0x1002), GpuVendor::AMD);
    assert_eq!(GpuVendor::from_vendor_id(0x8086), GpuVendor::INTEL);
    assert_eq!(GpuVendor::from_vendor_id(0x5143), GpuVendor::UNKNOWN);
}

#[test]
fn first_device_decides() {
    assert_eq!(vendor_of_devices(&[]), GpuVendor::UNKNOWN);
    assert_eq!(vendor_of_devices(&[0x1002, 0x10DE]), GpuVendor::AMD);
}

const DEVICE_LOCAL: u32 = 0x1;
const HOST_VISIBLE: u32 = 0x2;

#[test]
fn memory_type_is_first_allowed_with_flags() {
    let types = [HOST_VISIBLE, DEVICE_LOCAL, DEVICE_LOCAL | HOST_VISIBLE, DEVICE_LOCAL];
    assert_eq!(find_memory_type(&types, 0b1111, DEVICE_LOCAL), Some(1));
    assert_eq!(find_memory_type(&types, 0b1101, DEVICE_LOCAL), Some(2));
    assert_eq!(find_memory_type(&types, 0b0001, DEVICE_LOCAL), None);
    assert_eq!(find_memory_type(&types, 0b1111, DEVICE_LOCAL | HOST_VISIBLE), Some(2));
    assert_eq!(find_memory_type(&[], 0xffff_ffff, 0), None);
    assert_eq!(find_memory_type(&types, 0b1000, 0), Some(3));
}

#[test]
fn memory_type_index_31() {
    let mut types = [0u32; 32];
    types[31] = DEVICE_LOCAL;
    assert_eq!(find_memory_type(&types, 0xffff_ffff, DEVICE_LOCAL), Some(31));
}

#[test]
fn modifiers() {
    assert_eq!(effective_modifier(DRM_FORMAT_MOD_INVALID), 0);
    assert_eq!(effective_modifier(0x00ff_ffff_ffff_ffff), 0);
    assert_eq!(effective_modifier(0x0100_0000_0000_0002), 0x0100_0000_0000_0002);
    assert_eq!(effective_modifier(0), 0);
}

#[test]
fn buffer_size() {
    assert_eq!(persistent_buffer_size(1920, 1080), 8_294_400);
    assert_eq!(persistent_buffer_size(0, 1080), 0);
}

#[test]
fn first_plane_of_planes() {
    let p = DmaBufPlane { fd: 5, offset: 64, stride: 4096 };
    assert_eq!(first_plane(&[p, DmaBufPlane { fd: 6, offset: 0, stride: 1 }]).unwrap(), p);
    let e = first_plane(&[]).unwrap_err();
    assert!(matches!(e, WaycapError::Other(m) if m == "No DMA-BUF planes provided"));
}

#[test]
fn queue_family_selection() {
    let devices = vec![vec![0x2, 0x4], vec![0x1, 0x7, 0x5], vec![0x5]];
    assert_eq!(select_queue_family(&devices).unwrap(), (1, 1));
    let e = select_queue_family(&vec![]).unwrap_err();
    assert!(matches!(e, WaycapError::Other(m) if m == "No Vulkan physical devices found"));
    let e = select_queue_family(&vec![vec![0x1], vec![]]).unwrap_err();
    assert!(matches!(e, WaycapError::Other(m) if m == "No suitable Vulkan queue family found"));
}
