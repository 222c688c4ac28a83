//! The decisions of the EGL/OpenGL interop path: which GPU vendor a driver
//! string names, which surface to render to, whether DMA-BUF import is
//! available, and the attribute list that imports a DMA-BUF as an EGL image.
use vstd::prelude::*;
use vstd::utf8::{decode_utf8, valid_utf8};

use crate::text::{seq_contains, str_contains};
use crate::types::error::{is_other_error, WaycapError};
use crate::types::video_frame::DmaBufPlane;

verus! {

/// GPU vendor, as named by the OpenGL driver.
#[derive(Debug, Clone, Copy, PartialEq, Eq, Structural)]
pub enum GpuVendor {
    NVIDIA,
    AMD,
    INTEL,
    UNKNOWN,
}

/// The vendor that an already lower-cased vendor string names. NVIDIA is
/// looked for first, then AMD (`ati`, `amd`, `advanced micro devices`), then
/// Intel.
pub open spec fn vendor_of_lowercase(s: Seq<char>) -> GpuVendor {
    if seq_contains(s, "nvidia"@) {
        GpuVendor::NVIDIA
    } else if seq_contains(s, "ati"@) || seq_contains(s, "amd"@) || seq_contains(
        s,
        "advanced micro devices"@,
    ) {
        GpuVendor::AMD
    } else if seq_contains(s, "intel"@) {
        GpuVendor::INTEL
    } else {
        GpuVendor::UNKNOWN
    }
}

/// Which vendor a lower-cased name names: any name holding "nvidia" is
/// NVIDIA; otherwise one holding "ati", "amd" or "advanced micro devices" is
/// AMD; otherwise one holding "intel" is Intel; a name holding none of them
/// names no known vendor.
pub proof fn vendor_name_laws(s: Seq<char>)
    ensures
        seq_contains(s, "nvidia"@) ==> vendor_of_lowercase(s) == GpuVendor::NVIDIA,
        !seq_contains(s, "nvidia"@) && (seq_contains(s, "ati"@) || seq_contains(s, "amd"@) || seq_contains(
            s,
            "advanced micro devices"@,
        )) ==> vendor_of_lowercase(s) == GpuVendor::AMD,
        seq_contains(s, "intel"@) && !seq_contains(s, "nvidia"@) && !seq_contains(s, "ati"@) && !seq_contains(
            s,
            "amd"@,
        ) && !seq_contains(s, "advanced micro devices"@) ==> vendor_of_lowercase(s) == GpuVendor::INTEL,
        !seq_contains(s, "intel"@) && !seq_contains(s, "nvidia"@) && !seq_contains(s, "ati"@) && !seq_contains(
            s,
            "amd"@,
        ) && !seq_contains(s, "advanced micro devices"@) ==> vendor_of_lowercase(s) == GpuVendor::UNKNOWN,
{
}

/// What `str::to_lowercase` returns for a string.
pub uninterp spec fn lowercase(s: Seq<char>) -> Seq<char>;

/// Calls `str::to_lowercase`. Its result is a function of the string alone;
/// the contract names it and states no more of it.
#[verifier::external_body]
fn to_lowercase(s: &str) -> (r: String)
    ensures
        r@ == lowercase(s@),
{
    s.to_lowercase()
}

/// Calls `std::str::from_utf8`: it succeeds exactly on valid UTF-8 and then
/// yields the decoded characters.
#[verifier::external_body]
fn utf8_str(bytes: &[u8]) -> (r: Option<&str>)
    ensures
        r is Some <==> valid_utf8(bytes@),
        r matches Some(s) ==> s@ == decode_utf8(bytes@),
{
    std::str::from_utf8(bytes).ok()
}

impl GpuVendor {
    /// The vendor named by a lower-cased vendor string.
    pub fn from_lowercase_name(lower: &str) -> (v: GpuVendor)
        ensures
            v == vendor_of_lowercase(lower@),
    {
        if str_contains(lower, "nvidia") {
            GpuVendor::NVIDIA
        } else if str_contains(lower, "ati") || str_contains(lower, "amd") || str_contains(
            lower,
            "advanced micro devices",
        ) {
            GpuVendor::AMD
        } else if str_contains(lower, "intel") {
            GpuVendor::INTEL
        } else {
            GpuVendor::UNKNOWN
        }
    }

    /// The vendor named by a vendor string, compared case-insensitively.
    pub fn from_name(name: &str) -> (v: GpuVendor)
        ensures
            v == vendor_of_lowercase(lowercase(name@)),
    {
        let lower = to_lowercase(name);
        GpuVendor::from_lowercase_name(lower.as_str())
    }

    /// The vendor named by the bytes of the driver's vendor string; bytes
    /// that are not UTF-8 name no known vendor.
    pub fn from_vendor_bytes(bytes: &[u8]) -> (v: GpuVendor)
        ensures
            !valid_utf8(bytes@) ==> v == GpuVendor::UNKNOWN,
            valid_utf8(bytes@) ==> v == vendor_of_lowercase(lowercase(decode_utf8(bytes@))),
    {
        match utf8_str(bytes) {
            Some(s) => GpuVendor::from_name(s),
            None => GpuVendor::UNKNOWN,
        }
    }
}

/// `EGL_PBUFFER_BIT` of a config's surface type.
pub const EGL_PBUFFER_BIT: i32 = 0x0001;

/// The kind of surface the EGL context renders to.
#[derive(Debug, Clone, Copy, PartialEq, Eq, Structural)]
pub enum SurfaceKind {
    /// An off-screen pixel buffer surface.
    Pbuffer,
    /// No surface (`EGL_KHR_surfaceless_context`).
    Surfaceless,
}

pub open spec fn no_surface_message() -> Seq<char> {
    "No suitable surface type available"@
}

/// The surface to create: a pixel buffer when the config supports one, else
/// no surface when the display offers surfaceless contexts, else an error.
pub fn choose_surface(surface_type: i32, extensions: &str) -> (r: Result<SurfaceKind, WaycapError>)
    ensures
        (surface_type & EGL_PBUFFER_BIT) != 0 ==> r == Ok::<SurfaceKind, WaycapError>(SurfaceKind::Pbuffer),
        (surface_type & EGL_PBUFFER_BIT) == 0 && seq_contains(extensions@, "EGL_KHR_surfaceless_context"@)
            ==> r == Ok::<SurfaceKind, WaycapError>(SurfaceKind::Surfaceless),
        (surface_type & EGL_PBUFFER_BIT) == 0 && !seq_contains(extensions@, "EGL_KHR_surfaceless_context"@)
            ==> (r matches Err(e) && is_other_error(e, no_surface_message())),
{
    if (surface_type & EGL_PBUFFER_BIT) != 0 {
        Ok(SurfaceKind::Pbuffer)
    } else if str_contains(extensions, "EGL_KHR_surfaceless_context") {
        Ok(SurfaceKind::Surfaceless)
    } else {
        Err(WaycapError::Other("No suitable surface type available".to_owned()))
    }
}

pub open spec fn dmabuf_import_extension() -> Seq<char> {
    "EGL_EXT_image_dma_buf_import"@
}

pub open spec fn dmabuf_modifiers_extension() -> Seq<char> {
    "EGL_EXT_image_dma_buf_import_modifiers"@
}

pub open spec fn no_dmabuf_import_message() -> Seq<char> {
    "EGL_EXT_image_dma_buf_import not supported"@
}

/// Whether a display supports DMA-BUF import and DMA-BUF format modifiers,
/// from its extension string. Import support is required.
pub fn dmabuf_support(extensions: &str) -> (r: Result<(bool, bool), WaycapError>)
    ensures
        seq_contains(extensions@, dmabuf_import_extension()) ==> r == Ok::<(bool, bool), WaycapError>(
            (true, seq_contains(extensions@, dmabuf_modifiers_extension())),
        ),
        !seq_contains(extensions@, dmabuf_import_extension()) ==> (r matches Err(e) && is_other_error(
            e,
            no_dmabuf_import_message(),
        )),
{
    let dmabuf_import = str_contains(extensions, "EGL_EXT_image_dma_buf_import");
    let dmabuf_modifiers = str_contains(extensions, "EGL_EXT_image_dma_buf_import_modifiers");
    if !dmabuf_import {
        return Err(WaycapError::Other("EGL_EXT_image_dma_buf_import not supported".to_owned()));
    }
    Ok((dmabuf_import, dmabuf_modifiers))
}

/// `EGL_LINUX_DRM_FOURCC_EXT`
pub const EGL_LINUX_DRM_FOURCC_EXT: usize = 0x3271;
/// `EGL_WIDTH`
pub const EGL_WIDTH: usize = 0x3057;
/// `EGL_HEIGHT`
pub const EGL_HEIGHT: usize = 0x3056;
/// `EGL_NONE`, the end of an attribute list.
pub const EGL_NONE: usize = 0x3038;
/// `EGL_DMA_BUF_PLANE0_FD_EXT`; the offset and pitch keys follow it, and the
/// keys of plane `i` lie `3 * i` above those of plane 0.
pub const EGL_DMA_BUF_PLANE0_FD_EXT: usize = 0x3272;
/// `EGL_DMA_BUF_PLANE0_MODIFIER_LO_EXT`; the high half follows it, and the
/// keys of plane `i` lie `2 * i` above those of plane 0.
pub const EGL_DMA_BUF_PLANE0_MODIFIER_LO_EXT: usize = 0x3443;
/// The number of DMA-BUF planes an EGL image import describes.
pub const MAX_DMABUF_PLANES: usize = 3;

/// The fd, offset and pitch attributes of plane `i`.
pub open spec fn plane_attributes(i: int, p: DmaBufPlane) -> Seq<usize> {
    seq![
        (EGL_DMA_BUF_PLANE0_FD_EXT + 3 * i) as usize,
        p.fd as usize,
        (EGL_DMA_BUF_PLANE0_FD_EXT + 3 * i + 1) as usize,
        p.offset as usize,
        (EGL_DMA_BUF_PLANE0_FD_EXT + 3 * i + 2) as usize,
        p.stride as usize,
    ]
}

/// The low and high modifier attributes of plane `i`.
pub open spec fn modifier_attributes(i: int, modifier: u64) -> Seq<usize> {
    seq![
        (EGL_DMA_BUF_PLANE0_MODIFIER_LO_EXT + 2 * i) as usize,
        (modifier & 0xFFFF_FFFF) as usize,
        (EGL_DMA_BUF_PLANE0_MODIFIER_LO_EXT + 2 * i + 1) as usize,
        (modifier >> 32) as usize,
    ]
}

/// All attributes of plane `i`: its layout, then its modifier when modifiers
/// are supported.
pub open spec fn plane_block(i: int, p: DmaBufPlane, modifier: u64, with_modifiers: bool) -> Seq<usize> {
    plane_attributes(i, p) + if with_modifiers {
        modifier_attributes(i, modifier)
    } else {
        Seq::<usize>::empty()
    }
}

/// The attributes of the planes, plane 0 first.
pub open spec fn planes_block(planes: Seq<DmaBufPlane>, modifier: u64, with_modifiers: bool) -> Seq<usize>
    decreases planes.len(),
{
    if planes.len() == 0 {
        Seq::<usize>::empty()
    } else {
        planes_block(planes.drop_last(), modifier, with_modifiers) + plane_block(
            planes.len() - 1,
            planes.last(),
            modifier,
            with_modifiers,
        )
    }
}

/// The number of planes an import describes: at most [`MAX_DMABUF_PLANES`].
pub open spec fn described_planes(n: int) -> int {
    if n < MAX_DMABUF_PLANES {
        n
    } else {
        MAX_DMABUF_PLANES as int
    }
}

/// The attribute list of a DMA-BUF import: fourcc, width and height, the
/// attributes of the first three planes, and the terminating `EGL_NONE`.
pub open spec fn image_attributes(
    planes: Seq<DmaBufPlane>,
    format: u32,
    width: u32,
    height: u32,
    modifier: u64,
    with_modifiers: bool,
) -> Seq<usize> {
    seq![
        EGL_LINUX_DRM_FOURCC_EXT,
        format as usize,
        EGL_WIDTH,
        width as usize,
        EGL_HEIGHT,
        height as usize,
    ] + planes_block(planes.take(described_planes(planes.len() as int)), modifier, with_modifiers)
        + seq![EGL_NONE]
}

pub open spec fn dmabuf_unsupported_message() -> Seq<char> {
    "DMA-BUF import not supported"@
}

/// Appends the attributes of plane `i` to `attributes`.
fn push_plane_block(attributes: &mut Vec<usize>, i: usize, plane: DmaBufPlane, modifier: u64, with_modifiers: bool)
    requires
        i < MAX_DMABUF_PLANES,
    ensures
        final(attributes)@ == old(attributes)@ + plane_block(i as int, plane, modifier, with_modifiers),
{
    let ghost before = attributes@;
    attributes.push(EGL_DMA_BUF_PLANE0_FD_EXT + 3 * i);
    attributes.push(plane.fd as usize);
    attributes.push(EGL_DMA_BUF_PLANE0_FD_EXT + 3 * i + 1);
    attributes.push(plane.offset as usize);
    attributes.push(EGL_DMA_BUF_PLANE0_FD_EXT + 3 * i + 2);
    attributes.push(plane.stride as usize);
    assert(attributes@ =~= before + plane_attributes(i as int, plane));
    if with_modifiers {
        let ghost mid = attributes@;
        attributes.push(EGL_DMA_BUF_PLANE0_MODIFIER_LO_EXT + 2 * i);
        attributes.push((modifier & 0xFFFF_FFFF) as usize);
        attributes.push(EGL_DMA_BUF_PLANE0_MODIFIER_LO_EXT + 2 * i + 1);
        attributes.push((modifier >> 32) as usize);
        assert(attributes@ =~= mid + modifier_attributes(i as int, modifier));
    }
    assert(attributes@ =~= before + plane_block(i as int, plane, modifier, with_modifiers));
}

/// The attribute list that imports the DMA-BUF `planes` as an EGL image, or
/// an error when the display cannot import DMA-BUFs.
pub fn dmabuf_image_attributes(
    dmabuf_supported: bool,
    modifiers_supported: bool,
    planes: &[DmaBufPlane],
    format: u32,
    width: u32,
    height: u32,
    modifier: u64,
) -> (r: Result<Vec<usize>, WaycapError>)
    ensures
        dmabuf_supported ==> (r matches Ok(attrs) && attrs@ == image_attributes(
            planes@,
            format,
            width,
            height,
            modifier,
            modifiers_supported,
        )),
        !dmabuf_supported ==> (r matches Err(e) && is_other_error(e, dmabuf_unsupported_message())),
{
    if !dmabuf_supported {
        return Err(WaycapError::Other("DMA-BUF import not supported".to_owned()));
    }
    let mut attributes: Vec<usize> = Vec::new();
    attributes.push(EGL_LINUX_DRM_FOURCC_EXT);
    attributes.push(format as usize);
    attributes.push(EGL_WIDTH);
    attributes.push(width as usize);
    attributes.push(EGL_HEIGHT);
    attributes.push(height as usize);
    let ghost header = attributes@;
    let n = if planes.len() < MAX_DMABUF_PLANES {
        planes.len()
    } else {
        MAX_DMABUF_PLANES
    };
    let mut i: usize = 0;
    while i < n
        invariant
            n == described_planes(planes@.len() as int),
            i <= n,
            attributes@ == header + planes_block(planes@.take(i as int), modifier, modifiers_supported),
        decreases n - i,
    {
        push_plane_block(&mut attributes, i, planes[i], modifier, modifiers_supported);
        assert(planes@.take(i + 1).drop_last() =~= planes@.take(i as int));
        assert(planes@.take(i + 1).last() == planes@[i as int]);
        assert(attributes@ =~= header + planes_block(planes@.take(i + 1), modifier, modifiers_supported));
        i = i + 1;
    }
    attributes.push(EGL_NONE);
    Ok(attributes)
}

/// A display that advertises DMA-BUF modifiers also advertises DMA-BUF
/// import (the name of the one extends the name of the other), so
/// [`dmabuf_support`] never refuses it.
pub proof fn modifiers_imply_import(extensions: Seq<char>)
    ensures
        seq_contains(extensions, dmabuf_modifiers_extension()) ==> seq_contains(
            extensions,
            dmabuf_import_extension(),
        ),
{
    reveal_strlit("EGL_EXT_image_dma_buf_import");
    reveal_strlit("EGL_EXT_image_dma_buf_import_modifiers");
    if seq_contains(extensions, dmabuf_modifiers_extension()) {
        let i = choose|i: int| crate::text::occurs_at(extensions, dmabuf_modifiers_extension(), i);
        let m = dmabuf_modifiers_extension();
        let d = dmabuf_import_extension();
        assert(extensions.subrange(i, i + d.len()) =~= m.subrange(0, d.len() as int));
        assert(m.subrange(0, d.len() as int) =~= d);
        assert(crate::text::occurs_at(extensions, d, i));
    }
}

/// The number of attributes one plane contributes.
pub open spec fn plane_block_len(with_modifiers: bool) -> int {
    if with_modifiers {
        10
    } else {
        6
    }
}

/// The attribute list has a fixed shape: six header entries, a block of six
/// (ten with modifiers) entries for each of at most three planes, and the
/// terminating `EGL_NONE`.
pub proof fn image_attributes_shape(
    planes: Seq<DmaBufPlane>,
    format: u32,
    width: u32,
    height: u32,
    modifier: u64,
    with_modifiers: bool,
)
    ensures
        image_attributes(planes, format, width, height, modifier, with_modifiers).len() == 7
            + described_planes(planes.len() as int) * plane_block_len(with_modifiers),
        image_attributes(planes, format, width, height, modifier, with_modifiers).last() == EGL_NONE,
        described_planes(planes.len() as int) <= MAX_DMABUF_PLANES,
{
    let k = described_planes(planes.len() as int);
    planes_block_len(planes.take(k), modifier, with_modifiers);
}

proof fn planes_block_len(planes: Seq<DmaBufPlane>, modifier: u64, with_modifiers: bool)
    ensures
        planes_block(planes, modifier, with_modifiers).len() == planes.len() * plane_block_len(with_modifiers),
    decreases planes.len(),
{
    if planes.len() > 0 {
        planes_block_len(planes.drop_last(), modifier, with_modifiers);
        assert((planes.len() - 1) * plane_block_len(with_modifiers) + plane_block_len(with_modifiers)
            == planes.len() * plane_block_len(with_modifiers)) by (nonlinear_arith);
    }
}

} // verus!
