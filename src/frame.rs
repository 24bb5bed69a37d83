//! Captured frames: their content fingerprint, the size guard of the
//! structural comparison, and the assembly of a capture result.
use vstd::prelude::*;
use crate::error::VisionError;

verus! {

/// A decoded RGBA8 raster: four bytes per pixel, rows top to bottom.
#[derive(Clone, Debug)]
pub struct Frame {
    pub width: u32,
    pub height: u32,
    pub rgba: Vec<u8>,
}

/// The 64-bit hash of a byte sequence under std's default hasher.
pub uninterp spec fn fingerprint_of(bytes: Seq<u8>) -> u64;

/// Relies on std's `DefaultHasher`, through `BuildHasher::hash_one` on a
/// `BuildHasherDefault`: every hasher made by `DefaultHasher::new` or
/// `default` starts from the same state, so the hash depends on the bytes
/// alone.
#[verifier::external_body]
fn hash_bytes(bytes: &[u8]) -> (r: u64)
    ensures
        r == fingerprint_of(bytes@),
{
    std::hash::BuildHasher::hash_one(
        &std::hash::BuildHasherDefault::<std::hash::DefaultHasher>::default(),
        bytes,
    )
}

/// The content fingerprint of a frame: a hash of its raw pixel bytes.
pub fn calculate_hash(image: &Frame) -> (r: u64)
    ensures
        r == fingerprint_of(image.rgba@),
{
    hash_bytes(image.rgba.as_slice())
}

/// Frames with the same pixel bytes have the same fingerprint, whichever
/// instances hold them.
pub proof fn lemma_fingerprint_deterministic(a: Frame, b: Frame)
    requires
        a.rgba@ == b.rgba@,
    ensures
        fingerprint_of(a.rgba@) == fingerprint_of(b.rgba@),
{
}

/// Two images of the given sizes can be compared structurally: `Ok` when
/// widths and heights agree, `DimensionMismatch` otherwise.
pub fn check_sizes(first: (u32, u32), second: (u32, u32)) -> (r: Result<(), VisionError>)
    ensures
        r is Ok <==> first == second,
        r matches Err(e) ==> e == VisionError::DimensionMismatch,
{
    if first.0 == second.0 && first.1 == second.1 {
        Ok(())
    } else {
        Err(VisionError::DimensionMismatch)
    }
}

/// The structural comparison needs two frames of one size: `Ok` when
/// widths and heights agree, `DimensionMismatch` otherwise.
pub fn check_dimensions(first: &Frame, second: &Frame) -> (r: Result<(), VisionError>)
    ensures
        r is Ok <==> (first.width == second.width && first.height == second.height),
        r matches Err(e) ==> e == VisionError::DimensionMismatch,
{
    check_sizes((first.width, first.height), (second.width, second.height))
}

/// The capture of one visible window.
#[derive(Clone, Debug)]
pub struct WindowCapture {
    pub image: Frame,
    pub title: String,
    pub app_name: String,
    pub is_focused: bool,
}

/// Everything one capture produced: the monitor frame, the window frames,
/// the monitor frame's fingerprint and how long the capture took.
#[derive(Clone, Debug)]
pub struct CaptureResult {
    pub image: Frame,
    pub windows: Vec<WindowCapture>,
    pub image_hash: u64,
    pub duration_nanos: u64,
}

/// Assembles a capture from what the two backends returned. A failed
/// monitor capture fails the whole capture with `CaptureFailed`; a failed
/// window capture leaves the capture whole, with no window frames.
pub fn finish_capture(
    primary: Result<Frame, VisionError>,
    duration_nanos: u64,
    windows: Result<Vec<WindowCapture>, VisionError>,
) -> (r: Result<CaptureResult, VisionError>)
    ensures
        r is Ok <==> primary is Ok,
        r matches Err(e) ==> e == VisionError::CaptureFailed,
        r matches Ok(c) ==> c.image == primary->Ok_0,
        r matches Ok(c) ==> c.image_hash == fingerprint_of(c.image.rgba@),
        r matches Ok(c) ==> c.duration_nanos == duration_nanos,
        r matches Ok(c) ==> (windows matches Ok(w) ==> c.windows == w),
        r matches Ok(c) ==> (windows is Err ==> c.windows@.len() == 0),
{
    match primary {
        Err(_) => Err(VisionError::CaptureFailed),
        Ok(image) => {
            let image_hash = calculate_hash(&image);
            let windows = match windows {
                Ok(w) => w,
                Err(_) => Vec::new(),
            };
            Ok(CaptureResult { image, windows, image_hash, duration_nanos })
        },
    }
}

} // verus!
