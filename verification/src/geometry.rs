use vstd::prelude::*;

verus! {

/// The width and height of an image, in pixels.
#[derive(Debug, Clone, Copy, PartialEq, Eq, Structural)]
pub struct ImageSize {
    /// Width in pixels.
    pub width: usize,
    /// Height in pixels.
    pub height: usize,
}

impl ImageSize {
    /// A size of `width` by `height` pixels.
    pub fn new(width: usize, height: usize) -> (s: Self)
        ensures
            s.width == width,
            s.height == height,
    {
        Self { width, height }
    }
}

/// Filter quality used when scaling.
#[derive(Debug, Clone, Copy, PartialEq, Eq, Structural)]
pub enum FilterMode {
    /// Point sampling: fastest, lowest quality (`kFilterNone`).
    NoFilter,
    /// Linear filtering in one direction.
    Linear,
    /// Bilinear filtering.
    Bilinear,
    /// Box filtering, for downscaling.
    Box,
}

impl FilterMode {
    /// The value libyuv's `FilterMode` enumeration gives this mode.
    pub open spec fn spec_to_sys(self) -> u32 {
        match self {
            FilterMode::NoFilter => 0,
            FilterMode::Linear => 1,
            FilterMode::Bilinear => 2,
            FilterMode::Box => 3,
        }
    }

    /// The libyuv `FilterMode` value (`kFilterNone` .. `kFilterBox`).
    pub fn to_sys(self) -> (v: u32)
        ensures
            v == self.spec_to_sys(),
    {
        match self {
            FilterMode::NoFilter => 0,
            FilterMode::Linear => 1,
            FilterMode::Bilinear => 2,
            FilterMode::Box => 3,
        }
    }
}

/// Clockwise rotation applied to an image.
#[derive(Debug, Clone, Copy, PartialEq, Eq, Structural)]
pub enum RotationMode {
    /// No rotation (`kRotate0`).
    Rotate0,
    /// 90 degrees clockwise.
    Rotate90,
    /// 180 degrees.
    Rotate180,
    /// 270 degrees clockwise (90 degrees counter-clockwise).
    Rotate270,
}

impl RotationMode {
    /// The value libyuv's `RotationMode` enumeration gives this mode: the angle in degrees.
    pub open spec fn spec_to_sys(self) -> u32 {
        match self {
            RotationMode::Rotate0 => 0,
            RotationMode::Rotate90 => 90,
            RotationMode::Rotate180 => 180,
            RotationMode::Rotate270 => 270,
        }
    }

    /// The libyuv `RotationMode` value (`kRotate0` .. `kRotate270`).
    pub fn to_sys(self) -> (v: u32)
        ensures
            v == self.spec_to_sys(),
    {
        match self {
            RotationMode::Rotate0 => 0,
            RotationMode::Rotate90 => 90,
            RotationMode::Rotate180 => 180,
            RotationMode::Rotate270 => 270,
        }
    }

    /// Whether the rotation turns the image on its side.
    pub open spec fn swaps_axes(self) -> bool {
        self is Rotate90 || self is Rotate270
    }

    /// The size of an image of size `src` once rotated.
    pub open spec fn spec_output_size(self, src: ImageSize) -> ImageSize {
        if self.swaps_axes() {
            ImageSize { width: src.height, height: src.width }
        } else {
            src
        }
    }

    /// The size of an image of size `src` once rotated: a quarter turn
    /// swaps width and height, a half turn or none keeps them.
    pub fn output_size(self, src: ImageSize) -> (out: ImageSize)
        ensures
            out == self.spec_output_size(src),
    {
        match self {
            RotationMode::Rotate0 | RotationMode::Rotate180 => src,
            RotationMode::Rotate90 | RotationMode::Rotate270 => ImageSize::new(src.height, src.width),
        }
    }
}

/// Rotating twice by the same mode gives back the size it started from, and a
/// rotation never changes the number of pixels.
pub proof fn law_rotation_size_involutive(mode: RotationMode, src: ImageSize)
    ensures
        mode.spec_output_size(mode.spec_output_size(src)) == src,
        mode.spec_output_size(src).width * mode.spec_output_size(src).height == src.width
            * src.height,
{
    if mode.swaps_axes() {
        assert(src.height * src.width == src.width * src.height) by (nonlinear_arith);
    }
}

/// A quarter turn either way (90 or 270 degrees) exchanges the width and the
/// height; no turn or a half turn keeps the size. The modes are handed to
/// libyuv as their angle in degrees.
pub proof fn law_rotation_quarter_turns(mode: RotationMode, src: ImageSize)
    ensures
        (mode == RotationMode::Rotate90 || mode == RotationMode::Rotate270) ==>
            mode.spec_output_size(src).width == src.height && mode.spec_output_size(src).height == src.width,
        (mode == RotationMode::Rotate0 || mode == RotationMode::Rotate180) ==> mode.spec_output_size(src) == src,
        RotationMode::Rotate0.spec_to_sys() == 0 && RotationMode::Rotate90.spec_to_sys() == 90,
        RotationMode::Rotate180.spec_to_sys() == 180 && RotationMode::Rotate270.spec_to_sys() == 270,
{
}

/// The filter modes are handed to libyuv in order of increasing quality and
/// cost: none 0, linear 1, bilinear 2, box 3.
pub proof fn law_filter_mode_values()
    ensures
        FilterMode::NoFilter.spec_to_sys() == 0,
        FilterMode::Linear.spec_to_sys() == 1,
        FilterMode::Bilinear.spec_to_sys() == 2,
        FilterMode::Box.spec_to_sys() == 3,
{
}

} // verus!
