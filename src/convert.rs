use vstd::prelude::*;
use vstd::slice::slice_subrange;
use yuv::{YuvBiPlanarImage, YuvConversionMode, YuvRange, YuvStandardMatrix};
use yuvutils_rs::{
    YuvBiPlanarImage as UYuvBiPlanarImage, YuvConversionMode as UYuvConversionMode,
    YuvRange as UYuvRange, YuvStandardMatrix as UYuvStandardMatrix,
};

verus! {

/// The YUV range and matrix that one conversion attempt assumes.
#[derive(Clone, Copy, Debug, PartialEq, Eq, Structural)]
pub enum ColorProfile {
    /// Full range, BT.709 (HD).
    FullBt709,
    /// Limited range, BT.709 (HD).
    LimitedBt709,
    /// Limited range, BT.601 (SD).
    LimitedBt601,
}

/// Sizes the converters accept for tightly packed NV12 planes (a luma plane of
/// `width * height` bytes and a chroma plane of half that, both with rows
/// `width` bytes apart): both sides non-zero and even. An odd width leaves the
/// interleaved chroma rows too short for the row stride; an odd height leaves
/// the chroma plane a row short.
pub open spec fn even_size(width: u32, height: u32) -> bool {
    &&& width > 0
    &&& height > 0
    &&& width % 2 == 0
    &&& height % 2 == 0
}

/// Four bytes per pixel.
pub open spec fn out_len(width: u32, height: u32) -> nat {
    width as nat * height as nat * 4
}

/// Every pixel's fourth byte, its alpha, is fully opaque.
pub open spec fn opaque(pixels: Seq<u8>) -> bool {
    forall|i: int| 0 <= i < pixels.len() && i % 4 == 3 ==> pixels[i] == 255u8
}

/// Relies on `yuv::yuv_nv12_to_bgra` (balanced mode), on tightly packed
/// planes with rows `row_stride` (the width) bytes apart, writing into a fresh
/// zeroed buffer of `len` bytes with rows `out_stride` bytes apart: its size
/// checks accept exactly the sizes of [`even_size`] and return an error, not a
/// panic, on the others, before any row is converted; on success every pixel is
/// written with an opaque alpha byte, and the buffer keeps its length. Which
/// colour values it writes depends on the row routine it picks for the
/// machine's CPU, so nothing is said of them. The width bound keeps its stride
/// and chroma row arithmetic from overflowing.
#[verifier::external_body]
fn bgra_attempt(
    y: &[u8],
    uv: &[u8],
    width: u32,
    height: u32,
    row_stride: u32,
    out_stride: u32,
    len: usize,
    profile: ColorProfile,
) -> (r: Option<Vec<u8>>)
    requires
        width * 4 <= u32::MAX,
        row_stride == width,
        out_stride == width * 4,
        y@.len() == width * height,
        uv@.len() == width * height / 2,
        len == out_len(width, height),
        len <= isize::MAX,
    ensures
        r is Some <==> even_size(width, height),
        r matches Some(v) ==> v@.len() == len && opaque(v@),
{
    let (range, matrix) = match profile {
        ColorProfile::FullBt709 => (YuvRange::Full, YuvStandardMatrix::Bt709),
        ColorProfile::LimitedBt709 => (YuvRange::Limited, YuvStandardMatrix::Bt709),
        ColorProfile::LimitedBt601 => (YuvRange::Limited, YuvStandardMatrix::Bt601),
    };
    let image = YuvBiPlanarImage { y_plane: y, y_stride: row_stride, uv_plane: uv, uv_stride: row_stride, width, height };
    let mut out = vec![0u8; len];
    match yuv::yuv_nv12_to_bgra(&image, &mut out, out_stride, range, matrix, YuvConversionMode::Balanced) {
        Ok(()) => Some(out),
        Err(_) => None,
    }
}

/// Relies on `yuvutils_rs::yuv_nv12_to_rgba` (balanced mode), on planes and a
/// buffer laid out as for [`bgra_attempt`]. Its chroma check asks for a plane
/// of exactly `row_stride` times the chroma rows, which the packed plane is
/// exactly when the height is even; with an even height it accepts exactly the
/// even widths. So it accepts exactly the sizes of [`even_size`], returning an
/// error, not a panic, before any row is converted on the others. On success
/// every pixel is written with an opaque alpha byte, and the buffer keeps its
/// length; the colour values depend on the CPU's row routine.
#[verifier::external_body]
fn rgba_attempt(
    y: &[u8],
    uv: &[u8],
    width: u32,
    height: u32,
    row_stride: u32,
    out_stride: u32,
    len: usize,
    profile: ColorProfile,
) -> (r: Option<Vec<u8>>)
    requires
        width * 4 <= u32::MAX,
        row_stride == width,
        out_stride == width * 4,
        y@.len() == width * height,
        uv@.len() == width * height / 2,
        len == out_len(width, height),
        len <= isize::MAX,
    ensures
        r is Some <==> even_size(width, height),
        r matches Some(v) ==> v@.len() == len && opaque(v@),
{
    let (range, matrix) = match profile {
        ColorProfile::FullBt709 => (UYuvRange::Full, UYuvStandardMatrix::Bt709),
        ColorProfile::LimitedBt709 => (UYuvRange::Limited, UYuvStandardMatrix::Bt709),
        ColorProfile::LimitedBt601 => (UYuvRange::Limited, UYuvStandardMatrix::Bt601),
    };
    let image = UYuvBiPlanarImage { y_plane: y, y_stride: row_stride, uv_plane: uv, uv_stride: row_stride, width, height };
    let mut out = vec![0u8; len];
    match yuvutils_rs::yuv_nv12_to_rgba(&image, &mut out, out_stride, range, matrix, UYuvConversionMode::Balanced) {
        Ok(()) => Some(out),
        Err(_) => None,
    }
}

/// Byte order of the converted pixels.
#[derive(Clone, Copy, Debug, PartialEq, Eq, Structural)]
pub enum PixelOrder {
    Bgra,
    Rgba,
}

/// An all-black (all-zero) frame of `n` bytes.
pub open spec fn black(n: nat) -> Seq<u8> {
    Seq::new(n, |_i: int| 0u8)
}

/// An NV12 frame of `width` x `height` can be converted from `len` bytes of
/// data: both sides non-zero and even, and a luma plane of `width * height`
/// bytes followed by a chroma plane of half that.
pub open spec fn convertible(len: nat, width: u32, height: u32) -> bool {
    &&& even_size(width, height)
    &&& len >= width * height + width * height / 2
}

fn attempt_in(
    order: PixelOrder,
    y: &[u8],
    uv: &[u8],
    width: u32,
    height: u32,
    len: usize,
    profile: ColorProfile,
) -> (r: Option<Vec<u8>>)
    requires
        width * 4 <= u32::MAX,
        len == out_len(width, height),
        len <= isize::MAX,
        y@.len() == width * height,
        uv@.len() == width * height / 2,
    ensures
        r is Some <==> even_size(width, height),
        r matches Some(v) ==> v@.len() == len && opaque(v@),
{
    let out_stride = width * 4;
    match order {
        PixelOrder::Bgra => bgra_attempt(y, uv, width, height, width, out_stride, len, profile),
        PixelOrder::Rgba => rgba_attempt(y, uv, width, height, width, out_stride, len, profile),
    }
}

/// A black frame of `len` bytes.
fn black_frame(len: usize) -> (r: Vec<u8>)
    ensures
        r@ == black(len as nat),
{
    let mut r: Vec<u8> = Vec::with_capacity(len);
    let mut i: usize = 0;
    while i < len
        invariant
            i <= len,
            r@ == black(i as nat),
        decreases len - i,
    {
        r.push(0u8);
        i = i + 1;
        assert(r@ =~= black(i as nat));
    }
    r
}

/// Converts through the fallback chain: full-range BT.709 first, then
/// limited-range BT.709, then limited-range BT.601; black when the data is
/// short or every attempt fails.
fn convert_nv12(order: PixelOrder, data: &[u8], width: u32, height: u32) -> (r: Vec<u8>)
    requires
        width * 4 <= u32::MAX,
        out_len(width, height) <= isize::MAX,
    ensures
        r@.len() == out_len(width, height),
        !convertible(data@.len(), width, height) ==> r@ == black(out_len(width, height)),
        convertible(data@.len(), width, height) ==> opaque(r@),
{
    assert(width as nat * height as nat <= out_len(width, height)) by (nonlinear_arith);
    let y_size: usize = width as usize * height as usize;
    let uv_size: usize = y_size / 2;
    let len: usize = y_size * 4;
    if data.len() < y_size + uv_size {
        return black_frame(len);
    }
    let y = slice_subrange(data, 0, y_size);
    let uv = slice_subrange(data, y_size, y_size + uv_size);
    if let Some(p) = attempt_in(order, y, uv, width, height, len, ColorProfile::FullBt709) {
        return p;
    }
    if let Some(p) = attempt_in(order, y, uv, width, height, len, ColorProfile::LimitedBt709) {
        return p;
    }
    if let Some(p) = attempt_in(order, y, uv, width, height, len, ColorProfile::LimitedBt601) {
        return p;
    }
    black_frame(len)
}

/// Converts one NV12 frame (a luma plane of `width * height` bytes followed by
/// a chroma plane of half that) to BGRA, four bytes per pixel. When the frame
/// cannot be converted (see [`convertible`]) the result is black; otherwise
/// every pixel is opaque. The colour values come from the first of full-range
/// BT.709, limited-range BT.709 and limited-range BT.601 that converts.
pub fn nv12_to_bgra(data: &[u8], width: u32, height: u32) -> (r: Vec<u8>)
    requires
        width * 4 <= u32::MAX,
        out_len(width, height) <= isize::MAX,
    ensures
        r@.len() == out_len(width, height),
        !convertible(data@.len(), width, height) ==> r@ == black(out_len(width, height)),
        convertible(data@.len(), width, height) ==> opaque(r@),
{
    convert_nv12(PixelOrder::Bgra, data, width, height)
}

/// Converts one NV12 frame to RGBA, as [`nv12_to_bgra`] does to BGRA.
pub fn nv12_to_rgba(data: &[u8], width: u32, height: u32) -> (r: Vec<u8>)
    requires
        width * 4 <= u32::MAX,
        out_len(width, height) <= isize::MAX,
    ensures
        r@.len() == out_len(width, height),
        !convertible(data@.len(), width, height) ==> r@ == black(out_len(width, height)),
        convertible(data@.len(), width, height) ==> opaque(r@),
{
    convert_nv12(PixelOrder::Rgba, data, width, height)
}

} // verus!
