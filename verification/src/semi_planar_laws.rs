//! Laws of the semi-planar image types: for each format, which layouts its
//! validation accepts, stated with the interleaved chroma plane dimensions of
//! its subsampling.
use vstd::prelude::*;
use crate::geometry::ImageSize;
use crate::layout::{Direction, planar2_result};
use crate::semi_planar_images::{
    Nv12Image, Nv12ImageMut, Nv16Image, Nv16ImageMut, Nv21Image, Nv21ImageMut, Nv24Image, Nv24ImageMut, P010Image, P010ImageMut, P012Image, P012ImageMut, P210Image, P210ImageMut, P212Image, P212ImageMut, P410Image, P410ImageMut,
};
use crate::safety::{dims_fit, lemma_planar2_holds, plane_holds};

verus! {

/// A NV12 source (4:2:0) of `size` pixels is accepted exactly when every
/// dimension and stride is a C `int`, the luma plane holds `height` rows of
/// `width` bytes and the interleaved chroma plane `ceil(height / 2)` rows of
/// `2 * ceil(width / 2)` bytes; a refusal is the first failing check, worded for
/// a source.
pub proof fn law_nv12_image_layout(img: Nv12Image, size: ImageSize, function: &'static str)
    ensures
        img.spec_validate(size, function) is Ok <==> {
            &&& dims_fit(size)
            &&& plane_holds(img.y@.len(), img.y_stride, size.width as int, size.height as int)
            &&& plane_holds(img.uv@.len(), img.uv_stride, 2 * ((size.width as int + 1) / 2), (size.height as int + 1) / 2)
        },
        img.spec_validate(size, function) == planar2_result(
            img.y@.len(), img.y_stride, img.uv@.len(), img.uv_stride, size, 2, 2, function, Direction::Source,
        ),
{
    lemma_planar2_holds(img.y@.len(), img.y_stride, img.uv@.len(), img.uv_stride, size, 2, 2, function, Direction::Source);
    assert(img.y.len() == img.y@.len() && img.uv.len() == img.uv@.len());
}

/// A NV12 destination (4:2:0) of `size` pixels is accepted exactly when every
/// dimension and stride is a C `int`, the luma plane holds `height` rows of
/// `width` bytes and the interleaved chroma plane `ceil(height / 2)` rows of
/// `2 * ceil(width / 2)` bytes; a refusal is the first failing check, worded for
/// a destination.
pub proof fn law_nv12_image_mut_layout(img: Nv12ImageMut, size: ImageSize, function: &'static str)
    ensures
        img.spec_validate(size, function) is Ok <==> {
            &&& dims_fit(size)
            &&& plane_holds(old(img.y)@.len(), img.y_stride, size.width as int, size.height as int)
            &&& plane_holds(old(img.uv)@.len(), img.uv_stride, 2 * ((size.width as int + 1) / 2), (size.height as int + 1) / 2)
        },
        img.spec_validate(size, function) == planar2_result(
            old(img.y)@.len(), img.y_stride, old(img.uv)@.len(), img.uv_stride, size, 2, 2, function, Direction::Destination,
        ),
{
    lemma_planar2_holds(img.y@.len(), img.y_stride, img.uv@.len(), img.uv_stride, size, 2, 2, function, Direction::Destination);
    assert(img.y.len() == img.y@.len() && img.uv.len() == img.uv@.len());
}

/// A NV21 source (4:2:0) of `size` pixels is accepted exactly when every
/// dimension and stride is a C `int`, the luma plane holds `height` rows of
/// `width` bytes and the interleaved chroma plane `ceil(height / 2)` rows of
/// `2 * ceil(width / 2)` bytes; a refusal is the first failing check, worded for
/// a source.
pub proof fn law_nv21_image_layout(img: Nv21Image, size: ImageSize, function: &'static str)
    ensures
        img.spec_validate(size, function) is Ok <==> {
            &&& dims_fit(size)
            &&& plane_holds(img.y@.len(), img.y_stride, size.width as int, size.height as int)
            &&& plane_holds(img.uv@.len(), img.uv_stride, 2 * ((size.width as int + 1) / 2), (size.height as int + 1) / 2)
        },
        img.spec_validate(size, function) == planar2_result(
            img.y@.len(), img.y_stride, img.uv@.len(), img.uv_stride, size, 2, 2, function, Direction::Source,
        ),
{
    lemma_planar2_holds(img.y@.len(), img.y_stride, img.uv@.len(), img.uv_stride, size, 2, 2, function, Direction::Source);
    assert(img.y.len() == img.y@.len() && img.uv.len() == img.uv@.len());
}

/// A NV21 destination (4:2:0) of `size` pixels is accepted exactly when every
/// dimension and stride is a C `int`, the luma plane holds `height` rows of
/// `width` bytes and the interleaved chroma plane `ceil(height / 2)` rows of
/// `2 * ceil(width / 2)` bytes; a refusal is the first failing check, worded for
/// a destination.
pub proof fn law_nv21_image_mut_layout(img: Nv21ImageMut, size: ImageSize, function: &'static str)
    ensures
        img.spec_validate(size, function) is Ok <==> {
            &&& dims_fit(size)
            &&& plane_holds(old(img.y)@.len(), img.y_stride, size.width as int, size.height as int)
            &&& plane_holds(old(img.uv)@.len(), img.uv_stride, 2 * ((size.width as int + 1) / 2), (size.height as int + 1) / 2)
        },
        img.spec_validate(size, function) == planar2_result(
            old(img.y)@.len(), img.y_stride, old(img.uv)@.len(), img.uv_stride, size, 2, 2, function, Direction::Destination,
        ),
{
    lemma_planar2_holds(img.y@.len(), img.y_stride, img.uv@.len(), img.uv_stride, size, 2, 2, function, Direction::Destination);
    assert(img.y.len() == img.y@.len() && img.uv.len() == img.uv@.len());
}

/// A NV16 source (4:2:2) of `size` pixels is accepted exactly when every
/// dimension and stride is a C `int`, the luma plane holds `height` rows of
/// `width` bytes and the interleaved chroma plane `height` rows of
/// `2 * ceil(width / 2)` bytes; a refusal is the first failing check, worded for
/// a source.
pub proof fn law_nv16_image_layout(img: Nv16Image, size: ImageSize, function: &'static str)
    ensures
        img.spec_validate(size, function) is Ok <==> {
            &&& dims_fit(size)
            &&& plane_holds(img.y@.len(), img.y_stride, size.width as int, size.height as int)
            &&& plane_holds(img.uv@.len(), img.uv_stride, 2 * ((size.width as int + 1) / 2), size.height as int)
        },
        img.spec_validate(size, function) == planar2_result(
            img.y@.len(), img.y_stride, img.uv@.len(), img.uv_stride, size, 1, 2, function, Direction::Source,
        ),
{
    lemma_planar2_holds(img.y@.len(), img.y_stride, img.uv@.len(), img.uv_stride, size, 1, 2, function, Direction::Source);
    assert(img.y.len() == img.y@.len() && img.uv.len() == img.uv@.len());
}

/// A NV16 destination (4:2:2) of `size` pixels is accepted exactly when every
/// dimension and stride is a C `int`, the luma plane holds `height` rows of
/// `width` bytes and the interleaved chroma plane `height` rows of
/// `2 * ceil(width / 2)` bytes; a refusal is the first failing check, worded for
/// a destination.
pub proof fn law_nv16_image_mut_layout(img: Nv16ImageMut, size: ImageSize, function: &'static str)
    ensures
        img.spec_validate(size, function) is Ok <==> {
            &&& dims_fit(size)
            &&& plane_holds(old(img.y)@.len(), img.y_stride, size.width as int, size.height as int)
            &&& plane_holds(old(img.uv)@.len(), img.uv_stride, 2 * ((size.width as int + 1) / 2), size.height as int)
        },
        img.spec_validate(size, function) == planar2_result(
            old(img.y)@.len(), img.y_stride, old(img.uv)@.len(), img.uv_stride, size, 1, 2, function, Direction::Destination,
        ),
{
    lemma_planar2_holds(img.y@.len(), img.y_stride, img.uv@.len(), img.uv_stride, size, 1, 2, function, Direction::Destination);
    assert(img.y.len() == img.y@.len() && img.uv.len() == img.uv@.len());
}

/// A NV24 source (4:4:4) of `size` pixels is accepted exactly when every
/// dimension and stride is a C `int`, the luma plane holds `height` rows of
/// `width` bytes and the interleaved chroma plane `height` rows of
/// `2 * width` bytes; a refusal is the first failing check, worded for
/// a source.
pub proof fn law_nv24_image_layout(img: Nv24Image, size: ImageSize, function: &'static str)
    ensures
        img.spec_validate(size, function) is Ok <==> {
            &&& dims_fit(size)
            &&& plane_holds(img.y@.len(), img.y_stride, size.width as int, size.height as int)
            &&& plane_holds(img.uv@.len(), img.uv_stride, 2 * (size.width as int), size.height as int)
        },
        img.spec_validate(size, function) == planar2_result(
            img.y@.len(), img.y_stride, img.uv@.len(), img.uv_stride, size, 1, 1, function, Direction::Source,
        ),
{
    lemma_planar2_holds(img.y@.len(), img.y_stride, img.uv@.len(), img.uv_stride, size, 1, 1, function, Direction::Source);
    assert(img.y.len() == img.y@.len() && img.uv.len() == img.uv@.len());
}

/// A NV24 destination (4:4:4) of `size` pixels is accepted exactly when every
/// dimension and stride is a C `int`, the luma plane holds `height` rows of
/// `width` bytes and the interleaved chroma plane `height` rows of
/// `2 * width` bytes; a refusal is the first failing check, worded for
/// a destination.
pub proof fn law_nv24_image_mut_layout(img: Nv24ImageMut, size: ImageSize, function: &'static str)
    ensures
        img.spec_validate(size, function) is Ok <==> {
            &&& dims_fit(size)
            &&& plane_holds(old(img.y)@.len(), img.y_stride, size.width as int, size.height as int)
            &&& plane_holds(old(img.uv)@.len(), img.uv_stride, 2 * (size.width as int), size.height as int)
        },
        img.spec_validate(size, function) == planar2_result(
            old(img.y)@.len(), img.y_stride, old(img.uv)@.len(), img.uv_stride, size, 1, 1, function, Direction::Destination,
        ),
{
    lemma_planar2_holds(img.y@.len(), img.y_stride, img.uv@.len(), img.uv_stride, size, 1, 1, function, Direction::Destination);
    assert(img.y.len() == img.y@.len() && img.uv.len() == img.uv@.len());
}

/// A P010 source (4:2:0) of `size` pixels is accepted exactly when every
/// dimension and stride is a C `int`, the luma plane holds `height` rows of
/// `width` 16-bit samples and the interleaved chroma plane `ceil(height / 2)` rows of
/// `2 * ceil(width / 2)` 16-bit samples; a refusal is the first failing check, worded for
/// a source.
pub proof fn law_p010_image_layout(img: P010Image, size: ImageSize, function: &'static str)
    ensures
        img.spec_validate(size, function) is Ok <==> {
            &&& dims_fit(size)
            &&& plane_holds(img.y@.len(), img.y_stride, size.width as int, size.height as int)
            &&& plane_holds(img.uv@.len(), img.uv_stride, 2 * ((size.width as int + 1) / 2), (size.height as int + 1) / 2)
        },
        img.spec_validate(size, function) == planar2_result(
            img.y@.len(), img.y_stride, img.uv@.len(), img.uv_stride, size, 2, 2, function, Direction::Source,
        ),
{
    lemma_planar2_holds(img.y@.len(), img.y_stride, img.uv@.len(), img.uv_stride, size, 2, 2, function, Direction::Source);
    assert(img.y.len() == img.y@.len() && img.uv.len() == img.uv@.len());
}

/// A P010 destination (4:2:0) of `size` pixels is accepted exactly when every
/// dimension and stride is a C `int`, the luma plane holds `height` rows of
/// `width` 16-bit samples and the interleaved chroma plane `ceil(height / 2)` rows of
/// `2 * ceil(width / 2)` 16-bit samples; a refusal is the first failing check, worded for
/// a destination.
pub proof fn law_p010_image_mut_layout(img: P010ImageMut, size: ImageSize, function: &'static str)
    ensures
        img.spec_validate(size, function) is Ok <==> {
            &&& dims_fit(size)
            &&& plane_holds(old(img.y)@.len(), img.y_stride, size.width as int, size.height as int)
            &&& plane_holds(old(img.uv)@.len(), img.uv_stride, 2 * ((size.width as int + 1) / 2), (size.height as int + 1) / 2)
        },
        img.spec_validate(size, function) == planar2_result(
            old(img.y)@.len(), img.y_stride, old(img.uv)@.len(), img.uv_stride, size, 2, 2, function, Direction::Destination,
        ),
{
    lemma_planar2_holds(img.y@.len(), img.y_stride, img.uv@.len(), img.uv_stride, size, 2, 2, function, Direction::Destination);
    assert(img.y.len() == img.y@.len() && img.uv.len() == img.uv@.len());
}

/// A P012 source (4:2:0) of `size` pixels is accepted exactly when every
/// dimension and stride is a C `int`, the luma plane holds `height` rows of
/// `width` 16-bit samples and the interleaved chroma plane `ceil(height / 2)` rows of
/// `2 * ceil(width / 2)` 16-bit samples; a refusal is the first failing check, worded for
/// a source.
pub proof fn law_p012_image_layout(img: P012Image, size: ImageSize, function: &'static str)
    ensures
        img.spec_validate(size, function) is Ok <==> {
            &&& dims_fit(size)
            &&& plane_holds(img.y@.len(), img.y_stride, size.width as int, size.height as int)
            &&& plane_holds(img.uv@.len(), img.uv_stride, 2 * ((size.width as int + 1) / 2), (size.height as int + 1) / 2)
        },
        img.spec_validate(size, function) == planar2_result(
            img.y@.len(), img.y_stride, img.uv@.len(), img.uv_stride, size, 2, 2, function, Direction::Source,
        ),
{
    lemma_planar2_holds(img.y@.len(), img.y_stride, img.uv@.len(), img.uv_stride, size, 2, 2, function, Direction::Source);
    assert(img.y.len() == img.y@.len() && img.uv.len() == img.uv@.len());
}

/// A P012 destination (4:2:0) of `size` pixels is accepted exactly when every
/// dimension and stride is a C `int`, the luma plane holds `height` rows of
/// `width` 16-bit samples and the interleaved chroma plane `ceil(height / 2)` rows of
/// `2 * ceil(width / 2)` 16-bit samples; a refusal is the first failing check, worded for
/// a destination.
pub proof fn law_p012_image_mut_layout(img: P012ImageMut, size: ImageSize, function: &'static str)
    ensures
        img.spec_validate(size, function) is Ok <==> {
            &&& dims_fit(size)
            &&& plane_holds(old(img.y)@.len(), img.y_stride, size.width as int, size.height as int)
            &&& plane_holds(old(img.uv)@.len(), img.uv_stride, 2 * ((size.width as int + 1) / 2), (size.height as int + 1) / 2)
        },
        img.spec_validate(size, function) == planar2_result(
            old(img.y)@.len(), img.y_stride, old(img.uv)@.len(), img.uv_stride, size, 2, 2, function, Direction::Destination,
        ),
{
    lemma_planar2_holds(img.y@.len(), img.y_stride, img.uv@.len(), img.uv_stride, size, 2, 2, function, Direction::Destination);
    assert(img.y.len() == img.y@.len() && img.uv.len() == img.uv@.len());
}

/// A P210 source (4:2:2) of `size` pixels is accepted exactly when every
/// dimension and stride is a C `int`, the luma plane holds `height` rows of
/// `width` 16-bit samples and the interleaved chroma plane `height` rows of
/// `2 * ceil(width / 2)` 16-bit samples; a refusal is the first failing check, worded for
/// a source.
pub proof fn law_p210_image_layout(img: P210Image, size: ImageSize, function: &'static str)
    ensures
        img.spec_validate(size, function) is Ok <==> {
            &&& dims_fit(size)
            &&& plane_holds(img.y@.len(), img.y_stride, size.width as int, size.height as int)
            &&& plane_holds(img.uv@.len(), img.uv_stride, 2 * ((size.width as int + 1) / 2), size.height as int)
        },
        img.spec_validate(size, function) == planar2_result(
            img.y@.len(), img.y_stride, img.uv@.len(), img.uv_stride, size, 1, 2, function, Direction::Source,
        ),
{
    lemma_planar2_holds(img.y@.len(), img.y_stride, img.uv@.len(), img.uv_stride, size, 1, 2, function, Direction::Source);
    assert(img.y.len() == img.y@.len() && img.uv.len() == img.uv@.len());
}

/// A P210 destination (4:2:2) of `size` pixels is accepted exactly when every
/// dimension and stride is a C `int`, the luma plane holds `height` rows of
/// `width` 16-bit samples and the interleaved chroma plane `height` rows of
/// `2 * ceil(width / 2)` 16-bit samples; a refusal is the first failing check, worded for
/// a destination.
pub proof fn law_p210_image_mut_layout(img: P210ImageMut, size: ImageSize, function: &'static str)
    ensures
        img.spec_validate(size, function) is Ok <==> {
            &&& dims_fit(size)
            &&& plane_holds(old(img.y)@.len(), img.y_stride, size.width as int, size.height as int)
            &&& plane_holds(old(img.uv)@.len(), img.uv_stride, 2 * ((size.width as int + 1) / 2), size.height as int)
        },
        img.spec_validate(size, function) == planar2_result(
            old(img.y)@.len(), img.y_stride, old(img.uv)@.len(), img.uv_stride, size, 1, 2, function, Direction::Destination,
        ),
{
    lemma_planar2_holds(img.y@.len(), img.y_stride, img.uv@.len(), img.uv_stride, size, 1, 2, function, Direction::Destination);
    assert(img.y.len() == img.y@.len() && img.uv.len() == img.uv@.len());
}

/// A P212 source (4:2:2) of `size` pixels is accepted exactly when every
/// dimension and stride is a C `int`, the luma plane holds `height` rows of
/// `width` 16-bit samples and the interleaved chroma plane `height` rows of
/// `2 * ceil(width / 2)` 16-bit samples; a refusal is the first failing check, worded for
/// a source.
pub proof fn law_p212_image_layout(img: P212Image, size: ImageSize, function: &'static str)
    ensures
        img.spec_validate(size, function) is Ok <==> {
            &&& dims_fit(size)
            &&& plane_holds(img.y@.len(), img.y_stride, size.width as int, size.height as int)
            &&& plane_holds(img.uv@.len(), img.uv_stride, 2 * ((size.width as int + 1) / 2), size.height as int)
        },
        img.spec_validate(size, function) == planar2_result(
            img.y@.len(), img.y_stride, img.uv@.len(), img.uv_stride, size, 1, 2, function, Direction::Source,
        ),
{
    lemma_planar2_holds(img.y@.len(), img.y_stride, img.uv@.len(), img.uv_stride, size, 1, 2, function, Direction::Source);
    assert(img.y.len() == img.y@.len() && img.uv.len() == img.uv@.len());
}

/// A P212 destination (4:2:2) of `size` pixels is accepted exactly when every
/// dimension and stride is a C `int`, the luma plane holds `height` rows of
/// `width` 16-bit samples and the interleaved chroma plane `height` rows of
/// `2 * ceil(width / 2)` 16-bit samples; a refusal is the first failing check, worded for
/// a destination.
pub proof fn law_p212_image_mut_layout(img: P212ImageMut, size: ImageSize, function: &'static str)
    ensures
        img.spec_validate(size, function) is Ok <==> {
            &&& dims_fit(size)
            &&& plane_holds(old(img.y)@.len(), img.y_stride, size.width as int, size.height as int)
            &&& plane_holds(old(img.uv)@.len(), img.uv_stride, 2 * ((size.width as int + 1) / 2), size.height as int)
        },
        img.spec_validate(size, function) == planar2_result(
            old(img.y)@.len(), img.y_stride, old(img.uv)@.len(), img.uv_stride, size, 1, 2, function, Direction::Destination,
        ),
{
    lemma_planar2_holds(img.y@.len(), img.y_stride, img.uv@.len(), img.uv_stride, size, 1, 2, function, Direction::Destination);
    assert(img.y.len() == img.y@.len() && img.uv.len() == img.uv@.len());
}

/// A P410 source (4:4:4) of `size` pixels is accepted exactly when every
/// dimension and stride is a C `int`, the luma plane holds `height` rows of
/// `width` 16-bit samples and the interleaved chroma plane `height` rows of
/// `2 * width` 16-bit samples; a refusal is the first failing check, worded for
/// a source.
pub proof fn law_p410_image_layout(img: P410Image, size: ImageSize, function: &'static str)
    ensures
        img.spec_validate(size, function) is Ok <==> {
            &&& dims_fit(size)
            &&& plane_holds(img.y@.len(), img.y_stride, size.width as int, size.height as int)
            &&& plane_holds(img.uv@.len(), img.uv_stride, 2 * (size.width as int), size.height as int)
        },
        img.spec_validate(size, function) == planar2_result(
            img.y@.len(), img.y_stride, img.uv@.len(), img.uv_stride, size, 1, 1, function, Direction::Source,
        ),
{
    lemma_planar2_holds(img.y@.len(), img.y_stride, img.uv@.len(), img.uv_stride, size, 1, 1, function, Direction::Source);
    assert(img.y.len() == img.y@.len() && img.uv.len() == img.uv@.len());
}

/// A P410 destination (4:4:4) of `size` pixels is accepted exactly when every
/// dimension and stride is a C `int`, the luma plane holds `height` rows of
/// `width` 16-bit samples and the interleaved chroma plane `height` rows of
/// `2 * width` 16-bit samples; a refusal is the first failing check, worded for
/// a destination.
pub proof fn law_p410_image_mut_layout(img: P410ImageMut, size: ImageSize, function: &'static str)
    ensures
        img.spec_validate(size, function) is Ok <==> {
            &&& dims_fit(size)
            &&& plane_holds(old(img.y)@.len(), img.y_stride, size.width as int, size.height as int)
            &&& plane_holds(old(img.uv)@.len(), img.uv_stride, 2 * (size.width as int), size.height as int)
        },
        img.spec_validate(size, function) == planar2_result(
            old(img.y)@.len(), img.y_stride, old(img.uv)@.len(), img.uv_stride, size, 1, 1, function, Direction::Destination,
        ),
{
    lemma_planar2_holds(img.y@.len(), img.y_stride, img.uv@.len(), img.uv_stride, size, 1, 1, function, Direction::Destination);
    assert(img.y.len() == img.y@.len() && img.uv.len() == img.uv@.len());
}

} // verus!
