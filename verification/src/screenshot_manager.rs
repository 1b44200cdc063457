//! Screenshot rendering checks and screenshot configuration enums.

use vstd::prelude::*;

verus! {

/// Channel order of rendered pixel data.
#[derive(Debug, Clone, Copy, PartialEq, Eq, Structural)]
pub enum PixelLayout {
    Rgba,
    Bgra,
}

impl PixelLayout {
    /// The name of the layout.
    pub fn name(self) -> (s: &'static str)
        ensures
            self is Rgba ==> s@ == "RGBA"@,
            self is Bgra ==> s@ == "BGRA"@,
    {
        match self {
            PixelLayout::Rgba => "RGBA",
            PixelLayout::Bgra => "BGRA",
        }
    }
}

/// Why an image could not be rendered into bytes.
#[derive(Debug, Clone, Copy, PartialEq, Eq, Structural)]
pub enum RenderError {
    /// Width times height times four does not fit in a `usize`.
    DimensionsOverflow,
    /// The destination holds `got` bytes but `need` are required.
    DestinationTooSmall { need: usize, got: usize },
    /// The renderer did not write every byte of the given layout.
    RenderFailed(PixelLayout),
}

/// Bytes of a four-channel image of `width` by `height` pixels.
pub open spec fn image_bytes(width: usize, height: usize) -> int {
    width * height * 4
}

/// Bytes needed for a four-channel image; `DimensionsOverflow` when the
/// product does not fit in a `usize`.
pub fn required_byte_size(width: usize, height: usize) -> (r: Result<usize, RenderError>)
    ensures
        image_bytes(width, height) <= usize::MAX ==> r == Ok::<usize, RenderError>(
            image_bytes(width, height) as usize,
        ),
        image_bytes(width, height) > usize::MAX ==> r == Err::<usize, RenderError>(
            RenderError::DimensionsOverflow,
        ),
{
    match width.checked_mul(height) {
        Some(n) => match n.checked_mul(4) {
            Some(total) => Ok(total),
            None => Err(RenderError::DimensionsOverflow),
        },
        None => {
            proof {
                vstd::arithmetic::mul::lemma_mul_inequality(1, 4, (width * height) as int);
                assert(width * height * 4 >= width * height) by (nonlinear_arith)
                    requires
                        width * height >= 0,
                ;
            }
            Err(RenderError::DimensionsOverflow)
        },
    }
}

/// `required_byte_size` as a value.
pub open spec fn required_byte_size_spec(width: usize, height: usize) -> Result<usize, RenderError> {
    if image_bytes(width, height) <= usize::MAX {
        Ok(image_bytes(width, height) as usize)
    } else {
        Err(RenderError::DimensionsOverflow)
    }
}

/// Check a caller-supplied destination of `dest_len` bytes before rendering
/// into it: the image size, which the destination must hold.
pub fn check_destination(width: usize, height: usize, dest_len: usize) -> (r: Result<usize, RenderError>)
    ensures
        image_bytes(width, height) > usize::MAX ==> r == Err::<usize, RenderError>(
            RenderError::DimensionsOverflow,
        ),
        image_bytes(width, height) <= usize::MAX && dest_len < image_bytes(width, height) ==> r
            == Err::<usize, RenderError>(
            RenderError::DestinationTooSmall { need: image_bytes(width, height) as usize, got: dest_len },
        ),
        image_bytes(width, height) <= usize::MAX && dest_len >= image_bytes(width, height) ==> r
            == Ok::<usize, RenderError>(image_bytes(width, height) as usize),
{
    let total = match required_byte_size(width, height) {
        Ok(t) => t,
        Err(e) => {
            return Err(e);
        },
    };
    if dest_len < total {
        return Err(RenderError::DestinationTooSmall { need: total, got: dest_len });
    }
    Ok(total)
}

/// Check what the renderer reports: every one of the `total` bytes must
/// have been written.
pub fn check_rendered(layout: PixelLayout, written: usize, total: usize) -> (r: Result<usize, RenderError>)
    ensures
        written == total ==> r == Ok::<usize, RenderError>(written),
        written != total ==> r == Err::<usize, RenderError>(RenderError::RenderFailed(layout)),
{
    if written != total {
        Err(RenderError::RenderFailed(layout))
    } else {
        Ok(written)
    }
}

/// Entry point of screenshot capture.
#[derive(Debug, Clone, Copy)]
pub struct SCScreenshotManager;

/// Display intent for screenshot rendering.
#[derive(Debug, Clone, Copy, PartialEq, Eq, Hash, Structural)]
pub enum SCScreenshotDisplayIntent {
    /// Render on the canonical display
    Canonical,
    /// Render on the local display
    Local,
}

impl SCScreenshotDisplayIntent {
    /// The raw value the framework takes.
    pub fn raw(self) -> (v: i32)
        ensures
            self is Canonical ==> v == 0,
            self is Local ==> v == 1,
    {
        match self {
            SCScreenshotDisplayIntent::Canonical => 0,
            SCScreenshotDisplayIntent::Local => 1,
        }
    }
}

impl Default for SCScreenshotDisplayIntent {
    fn default() -> (d: Self)
        ensures
            d is Canonical,
    {
        SCScreenshotDisplayIntent::Canonical
    }
}

/// Dynamic range for screenshot output.
#[derive(Debug, Clone, Copy, PartialEq, Eq, Hash, Structural)]
pub enum SCScreenshotDynamicRange {
    /// SDR output only
    SDR,
    /// HDR output only
    HDR,
    /// Both SDR and HDR output
    BothSDRAndHDR,
}

impl SCScreenshotDynamicRange {
    /// The raw value the framework takes.
    pub fn raw(self) -> (v: i32)
        ensures
            self is SDR ==> v == 0,
            self is HDR ==> v == 1,
            self is BothSDRAndHDR ==> v == 2,
    {
        match self {
            SCScreenshotDynamicRange::SDR => 0,
            SCScreenshotDynamicRange::HDR => 1,
            SCScreenshotDynamicRange::BothSDRAndHDR => 2,
        }
    }
}

impl Default for SCScreenshotDynamicRange {
    fn default() -> (d: Self)
        ensures
            d is SDR,
    {
        SCScreenshotDynamicRange::SDR
    }
}

} // verus!
