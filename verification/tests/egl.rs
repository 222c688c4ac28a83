use waycap_rs::types::error::WaycapError;
use waycap_rs::types::video_frame::DmaBufPlane;
use waycap_rs::waycap_egl::{
    choose_surface, dmabuf_image_attributes, dmabuf_support, GpuVendor, SurfaceKind,
};

#[test]
fn vendor_names_case_insensitively() {
    assert_eq!(GpuVendor::from_name("NVIDIA Corporation"), GpuVendor::NVIDIA);
    assert_eq!(GpuVendor::from_name("AMD"), GpuVendor::AMD);
    assert_eq!(GpuVendor::from_name("Advanced Micro Devices, Inc."), GpuVendor::AMD);
    assert_eq!(GpuVendor::from_name("Intel"), GpuVendor::INTEL);
    assert_eq!(GpuVendor::from_name("Mesa"), GpuVendor::UNKNOWN);
    assert_eq!(GpuVendor::from_name(""), GpuVendor::UNKNOWN);
}

#[test]
fn ati_substring_wins_over_intel() {
    // "corporation" holds "ati", which is looked for before "intel".
    assert_eq!(GpuVendor::from_name("Intel Corporation"), GpuVendor::AMD);
    assert_eq!(GpuVendor::from_name("X.Org ATI"), GpuVendor::AMD);
}

#[test]
fn nvidia_wins_over_every_other_name() {
    assert_eq!(GpuVendor::from_name("nvidia amd intel"), GpuVendor::NVIDIA);
}

#[test]
fn lowercase_name_is_matched_as_is() {
    assert_eq!(GpuVendor::from_lowercase_name("nvidia"), GpuVendor::NVIDIA);
    assert_eq!(GpuVendor::from_lowercase_name("NVIDIA"), GpuVendor::UNKNOWN);
}

#[test]
fn vendor_bytes() {
    assert_eq!(GpuVendor::from_vendor_bytes(b"NVIDIA Corporation"), GpuVendor::NVIDIA);
    assert_eq!(GpuVendor::from_vendor_bytes(&[0xff, 0xfe, b'a', b'm', b'd']), GpuVendor::UNKNOWN);
}

#[test]
fn surface_choice() {
    assert_eq!(choose_surface(0x0004 | 0x0001, "").unwrap(), SurfaceKind::Pbuffer);
    assert_eq!(
        choose_surface(0x0004, "EGL_KHR_image_base EGL_KHR_surfaceless_context").unwrap(),
        SurfaceKind::Surfaceless
    );
    let e = choose_surface(0x0004, "EGL_KHR_image_base").unwrap_err();
    assert!(matches!(e, WaycapError::Other(m) if m == "No suitable surface type available"));
}

#[test]
fn dmabuf_support_from_extensions() {
    assert_eq!(
        dmabuf_support("EGL_EXT_image_dma_buf_import EGL_EXT_image_dma_buf_import_modifiers").unwrap(),
        (true, true)
    );
    assert_eq!(dmabuf_support("EGL_EXT_image_dma_buf_import").unwrap(), (true, false));
    assert_eq!(dmabuf_support("EGL_EXT_image_dma_buf_import_modifiers").unwrap(), (true, true));
    let e = dmabuf_support("EGL_KHR_image_base").unwrap_err();
    assert!(matches!(e, WaycapError::Other(m) if m == "EGL_EXT_image_dma_buf_import not supported"));
}

fn plane(fd: i32, offset: u32, stride: u32) -> DmaBufPlane {
    DmaBufPlane { fd, offset, stride }
}

#[test]
fn attributes_of_one_plane_without_modifiers() {
    let a = dmabuf_image_attributes(true, false, &[plane(7, 0, 7680)], 0x34325241, 1920, 1080, 0).unwrap();
    assert_eq!(
        a,
        vec![0x3271, 0x34325241, 0x3057, 1920, 0x3056, 1080, 0x3272, 7, 0x3273, 0, 0x3274, 7680, 0x3038]
    );
}

#[test]
fn attributes_of_two_planes_with_modifiers() {
    let modifier: u64 = 0x0100_0000_0000_0002;
    let a = dmabuf_image_attributes(true, true, &[plane(3, 0, 256), plane(4, 1024, 128)], 1, 16, 8, modifier)
        .unwrap();
    assert_eq!(
        a,
        vec![
            0x3271, 1, 0x3057, 16, 0x3056, 8,
            0x3272, 3, 0x3273, 0, 0x3274, 256, 0x3443, 2, 0x3444, 0x0100_0000,
            0x3275, 4, 0x3276, 1024, 0x3277, 128, 0x3445, 2, 0x3446, 0x0100_0000,
            0x3038,
        ]
    );
}

#[test]
fn attributes_describe_at_most_three_planes() {
    let planes = [plane(1, 0, 1), plane(2, 0, 2), plane(3, 0, 3), plane(4, 0, 4)];
    let a = dmabuf_image_attributes(true, false, &planes, 1, 1, 1, 0).unwrap();
    assert_eq!(a.len(), 6 + 3 * 6 + 1);
    assert_eq!(&a[18..24], &[0x3278, 3, 0x3279, 0, 0x327A, 3]);
    assert_eq!(*a.last().unwrap(), 0x3038);
}

#[test]
fn attributes_without_planes() {
    let a = dmabuf_image_attributes(true, true, &[], 9, 2, 3, 5).unwrap();
    assert_eq!(a, vec![0x3271, 9, 0x3057, 2, 0x3056, 3, 0x3038]);
}

#[test]
fn negative_fd_is_sign_extended() {
    let a = dmabuf_image_attributes(true, false, &[plane(-1, 0, 0)], 0, 0, 0, 0).unwrap();
    assert_eq!(a[7], usize::MAX);
}

#[test]
fn attributes_refused_without_dmabuf_import() {
    let e = dmabuf_image_attributes(false, true, &[plane(1, 0, 1)], 0, 0, 0, 0).unwrap_err();
    assert!(matches!(e, WaycapError::Other(m) if m == "DMA-BUF import not supported"));
}
