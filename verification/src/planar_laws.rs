//! Laws of the three-plane image types: for each format, which layouts its
//! validation accepts, stated with the chroma plane dimensions of its
//! subsampling.
use vstd::prelude::*;
use crate::geometry::ImageSize;
use crate::layout::{Direction, planar3_result};
use crate::planar_images::{
    Android420Image, Android420ImageMut, H010Image, H010ImageMut, H210Image, H210ImageMut, H420Image, H420ImageMut, H422Image, H422ImageMut, H444Image, H444ImageMut, I010Image, I010ImageMut, I012Image, I012ImageMut, I210Image, I210ImageMut, I212Image, I212ImageMut, I410Image, I410ImageMut, I412Image, I412ImageMut, I420Image, I420ImageMut, I422Image, I422ImageMut, I444Image, I444ImageMut, J420Image, J420ImageMut, J422Image, J422ImageMut, J444Image, J444ImageMut, U010Image, U010ImageMut, U210Image, U210ImageMut, U420Image, U420ImageMut, U422Image, U422ImageMut, U444Image, U444ImageMut,
};
use crate::safety::{dims_fit, lemma_planar3_holds, plane_holds};

verus! {

/// A I420 source (4:2:0) of `size` pixels is accepted exactly when every
/// dimension and stride is a C `int`, the luma plane holds `height` rows of
/// `width` bytes and each chroma plane `ceil(height / 2)` rows of `ceil(width / 2)` bytes,
/// each row starting one stride after the last; a refusal is the first failing
/// check, worded for a source.
pub proof fn law_i420_image_layout(img: I420Image, size: ImageSize, function: &'static str)
    ensures
        img.spec_validate(size, function) is Ok <==> {
            &&& dims_fit(size)
            &&& plane_holds(img.y@.len(), img.y_stride, size.width as int, size.height as int)
            &&& plane_holds(img.u@.len(), img.u_stride, (size.width as int + 1) / 2, (size.height as int + 1) / 2)
            &&& plane_holds(img.v@.len(), img.v_stride, (size.width as int + 1) / 2, (size.height as int + 1) / 2)
        },
        img.spec_validate(size, function) == planar3_result(
            img.y@.len(), img.y_stride, img.u@.len(), img.u_stride, img.v@.len(), img.v_stride,
            size, 2, 2, function, Direction::Source,
        ),
{
    lemma_planar3_holds(
        img.y@.len(), img.y_stride, img.u@.len(), img.u_stride, img.v@.len(), img.v_stride,
        size, 2, 2, function, Direction::Source,
    );
    assert(img.y.len() == img.y@.len() && img.u.len() == img.u@.len() && img.v.len() == img.v@.len());
}

/// A I420 destination (4:2:0) of `size` pixels is accepted exactly when every
/// dimension and stride is a C `int`, the luma plane holds `height` rows of
/// `width` bytes and each chroma plane `ceil(height / 2)` rows of `ceil(width / 2)` bytes,
/// each row starting one stride after the last; a refusal is the first failing
/// check, worded for a destination.
pub proof fn law_i420_image_mut_layout(img: I420ImageMut, size: ImageSize, function: &'static str)
    ensures
        img.spec_validate(size, function) is Ok <==> {
            &&& dims_fit(size)
            &&& plane_holds(old(img.y)@.len(), img.y_stride, size.width as int, size.height as int)
            &&& plane_holds(old(img.u)@.len(), img.u_stride, (size.width as int + 1) / 2, (size.height as int + 1) / 2)
            &&& plane_holds(old(img.v)@.len(), img.v_stride, (size.width as int + 1) / 2, (size.height as int + 1) / 2)
        },
        img.spec_validate(size, function) == planar3_result(
            old(img.y)@.len(), img.y_stride, old(img.u)@.len(), img.u_stride, old(img.v)@.len(), img.v_stride,
            size, 2, 2, function, Direction::Destination,
        ),
{
    lemma_planar3_holds(
        img.y@.len(), img.y_stride, img.u@.len(), img.u_stride, img.v@.len(), img.v_stride,
        size, 2, 2, function, Direction::Destination,
    );
    assert(img.y.len() == img.y@.len() && img.u.len() == img.u@.len() && img.v.len() == img.v@.len());
}

/// A J420 source (4:2:0) of `size` pixels is accepted exactly when every
/// dimension and stride is a C `int`, the luma plane holds `height` rows of
/// `width` bytes and each chroma plane `ceil(height / 2)` rows of `ceil(width / 2)` bytes,
/// each row starting one stride after the last; a refusal is the first failing
/// check, worded for a source.
pub proof fn law_j420_image_layout(img: J420Image, size: ImageSize, function: &'static str)
    ensures
        img.spec_validate(size, function) is Ok <==> {
            &&& dims_fit(size)
            &&& plane_holds(img.y@.len(), img.y_stride, size.width as int, size.height as int)
            &&& plane_holds(img.u@.len(), img.u_stride, (size.width as int + 1) / 2, (size.height as int + 1) / 2)
            &&& plane_holds(img.v@.len(), img.v_stride, (size.width as int + 1) / 2, (size.height as int + 1) / 2)
        },
        img.spec_validate(size, function) == planar3_result(
            img.y@.len(), img.y_stride, img.u@.len(), img.u_stride, img.v@.len(), img.v_stride,
            size, 2, 2, function, Direction::Source,
        ),
{
    lemma_planar3_holds(
        img.y@.len(), img.y_stride, img.u@.len(), img.u_stride, img.v@.len(), img.v_stride,
        size, 2, 2, function, Direction::Source,
    );
    assert(img.y.len() == img.y@.len() && img.u.len() == img.u@.len() && img.v.len() == img.v@.len());
}

/// A J420 destination (4:2:0) of `size` pixels is accepted exactly when every
/// dimension and stride is a C `int`, the luma plane holds `height` rows of
/// `width` bytes and each chroma plane `ceil(height / 2)` rows of `ceil(width / 2)` bytes,
/// each row starting one stride after the last; a refusal is the first failing
/// check, worded for a destination.
pub proof fn law_j420_image_mut_layout(img: J420ImageMut, size: ImageSize, function: &'static str)
    ensures
        img.spec_validate(size, function) is Ok <==> {
            &&& dims_fit(size)
            &&& plane_holds(old(img.y)@.len(), img.y_stride, size.width as int, size.height as int)
            &&& plane_holds(old(img.u)@.len(), img.u_stride, (size.width as int + 1) / 2, (size.height as int + 1) / 2)
            &&& plane_holds(old(img.v)@.len(), img.v_stride, (size.width as int + 1) / 2, (size.height as int + 1) / 2)
        },
        img.spec_validate(size, function) == planar3_result(
            old(img.y)@.len(), img.y_stride, old(img.u)@.len(), img.u_stride, old(img.v)@.len(), img.v_stride,
            size, 2, 2, function, Direction::Destination,
        ),
{
    lemma_planar3_holds(
        img.y@.len(), img.y_stride, img.u@.len(), img.u_stride, img.v@.len(), img.v_stride,
        size, 2, 2, function, Direction::Destination,
    );
    assert(img.y.len() == img.y@.len() && img.u.len() == img.u@.len() && img.v.len() == img.v@.len());
}

/// A H420 source (4:2:0) of `size` pixels is accepted exactly when every
/// dimension and stride is a C `int`, the luma plane holds `height` rows of
/// `width` bytes and each chroma plane `ceil(height / 2)` rows of `ceil(width / 2)` bytes,
/// each row starting one stride after the last; a refusal is the first failing
/// check, worded for a source.
pub proof fn law_h420_image_layout(img: H420Image, size: ImageSize, function: &'static str)
    ensures
        img.spec_validate(size, function) is Ok <==> {
            &&& dims_fit(size)
            &&& plane_holds(img.y@.len(), img.y_stride, size.width as int, size.height as int)
            &&& plane_holds(img.u@.len(), img.u_stride, (size.width as int + 1) / 2, (size.height as int + 1) / 2)
            &&& plane_holds(img.v@.len(), img.v_stride, (size.width as int + 1) / 2, (size.height as int + 1) / 2)
        },
        img.spec_validate(size, function) == planar3_result(
            img.y@.len(), img.y_stride, img.u@.len(), img.u_stride, img.v@.len(), img.v_stride,
            size, 2, 2, function, Direction::Source,
        ),
{
    lemma_planar3_holds(
        img.y@.len(), img.y_stride, img.u@.len(), img.u_stride, img.v@.len(), img.v_stride,
        size, 2, 2, function, Direction::Source,
    );
    assert(img.y.len() == img.y@.len() && img.u.len() == img.u@.len() && img.v.len() == img.v@.len());
}

/// A H420 destination (4:2:0) of `size` pixels is accepted exactly when every
/// dimension and stride is a C `int`, the luma plane holds `height` rows of
/// `width` bytes and each chroma plane `ceil(height / 2)` rows of `ceil(width / 2)` bytes,
/// each row starting one stride after the last; a refusal is the first failing
/// check, worded for a destination.
pub proof fn law_h420_image_mut_layout(img: H420ImageMut, size: ImageSize, function: &'static str)
    ensures
        img.spec_validate(size, function) is Ok <==> {
            &&& dims_fit(size)
            &&& plane_holds(old(img.y)@.len(), img.y_stride, size.width as int, size.height as int)
            &&& plane_holds(old(img.u)@.len(), img.u_stride, (size.width as int + 1) / 2, (size.height as int + 1) / 2)
            &&& plane_holds(old(img.v)@.len(), img.v_stride, (size.width as int + 1) / 2, (size.height as int + 1) / 2)
        },
        img.spec_validate(size, function) == planar3_result(
            old(img.y)@.len(), img.y_stride, old(img.u)@.len(), img.u_stride, old(img.v)@.len(), img.v_stride,
            size, 2, 2, function, Direction::Destination,
        ),
{
    lemma_planar3_holds(
        img.y@.len(), img.y_stride, img.u@.len(), img.u_stride, img.v@.len(), img.v_stride,
        size, 2, 2, function, Direction::Destination,
    );
    assert(img.y.len() == img.y@.len() && img.u.len() == img.u@.len() && img.v.len() == img.v@.len());
}

/// A U420 source (4:2:0) of `size` pixels is accepted exactly when every
/// dimension and stride is a C `int`, the luma plane holds `height` rows of
/// `width` bytes and each chroma plane `ceil(height / 2)` rows of `ceil(width / 2)` bytes,
/// each row starting one stride after the last; a refusal is the first failing
/// check, worded for a source.
pub proof fn law_u420_image_layout(img: U420Image, size: ImageSize, function: &'static str)
    ensures
        img.spec_validate(size, function) is Ok <==> {
            &&& dims_fit(size)
            &&& plane_holds(img.y@.len(), img.y_stride, size.width as int, size.height as int)
            &&& plane_holds(img.u@.len(), img.u_stride, (size.width as int + 1) / 2, (size.height as int + 1) / 2)
            &&& plane_holds(img.v@.len(), img.v_stride, (size.width as int + 1) / 2, (size.height as int + 1) / 2)
        },
        img.spec_validate(size, function) == planar3_result(
            img.y@.len(), img.y_stride, img.u@.len(), img.u_stride, img.v@.len(), img.v_stride,
            size, 2, 2, function, Direction::Source,
        ),
{
    lemma_planar3_holds(
        img.y@.len(), img.y_stride, img.u@.len(), img.u_stride, img.v@.len(), img.v_stride,
        size, 2, 2, function, Direction::Source,
    );
    assert(img.y.len() == img.y@.len() && img.u.len() == img.u@.len() && img.v.len() == img.v@.len());
}

/// A U420 destination (4:2:0) of `size` pixels is accepted exactly when every
/// dimension and stride is a C `int`, the luma plane holds `height` rows of
/// `width` bytes and each chroma plane `ceil(height / 2)` rows of `ceil(width / 2)` bytes,
/// each row starting one stride after the last; a refusal is the first failing
/// check, worded for a destination.
pub proof fn law_u420_image_mut_layout(img: U420ImageMut, size: ImageSize, function: &'static str)
    ensures
        img.spec_validate(size, function) is Ok <==> {
            &&& dims_fit(size)
            &&& plane_holds(old(img.y)@.len(), img.y_stride, size.width as int, size.height as int)
            &&& plane_holds(old(img.u)@.len(), img.u_stride, (size.width as int + 1) / 2, (size.height as int + 1) / 2)
            &&& plane_holds(old(img.v)@.len(), img.v_stride, (size.width as int + 1) / 2, (size.height as int + 1) / 2)
        },
        img.spec_validate(size, function) == planar3_result(
            old(img.y)@.len(), img.y_stride, old(img.u)@.len(), img.u_stride, old(img.v)@.len(), img.v_stride,
            size, 2, 2, function, Direction::Destination,
        ),
{
    lemma_planar3_holds(
        img.y@.len(), img.y_stride, img.u@.len(), img.u_stride, img.v@.len(), img.v_stride,
        size, 2, 2, function, Direction::Destination,
    );
    assert(img.y.len() == img.y@.len() && img.u.len() == img.u@.len() && img.v.len() == img.v@.len());
}

/// A Android420 source (4:2:0) of `size` pixels is accepted exactly when every
/// dimension and stride is a C `int`, the luma plane holds `height` rows of
/// `width` bytes and each chroma plane `ceil(height / 2)` rows of `ceil(width / 2)` bytes,
/// each row starting one stride after the last; a refusal is the first failing
/// check, worded for a source.
pub proof fn law_android420_image_layout(img: Android420Image, size: ImageSize, function: &'static str)
    ensures
        img.spec_validate(size, function) is Ok <==> {
            &&& dims_fit(size)
            &&& plane_holds(img.y@.len(), img.y_stride, size.width as int, size.height as int)
            &&& plane_holds(img.u@.len(), img.u_stride, (size.width as int + 1) / 2, (size.height as int + 1) / 2)
            &&& plane_holds(img.v@.len(), img.v_stride, (size.width as int + 1) / 2, (size.height as int + 1) / 2)
        },
        img.spec_validate(size, function) == planar3_result(
            img.y@.len(), img.y_stride, img.u@.len(), img.u_stride, img.v@.len(), img.v_stride,
            size, 2, 2, function, Direction::Source,
        ),
{
    lemma_planar3_holds(
        img.y@.len(), img.y_stride, img.u@.len(), img.u_stride, img.v@.len(), img.v_stride,
        size, 2, 2, function, Direction::Source,
    );
    assert(img.y.len() == img.y@.len() && img.u.len() == img.u@.len() && img.v.len() == img.v@.len());
}

/// A Android420 destination (4:2:0) of `size` pixels is accepted exactly when every
/// dimension and stride is a C `int`, the luma plane holds `height` rows of
/// `width` bytes and each chroma plane `ceil(height / 2)` rows of `ceil(width / 2)` bytes,
/// each row starting one stride after the last; a refusal is the first failing
/// check, worded for a destination.
pub proof fn law_android420_image_mut_layout(img: Android420ImageMut, size: ImageSize, function: &'static str)
    ensures
        img.spec_validate(size, function) is Ok <==> {
            &&& dims_fit(size)
            &&& plane_holds(old(img.y)@.len(), img.y_stride, size.width as int, size.height as int)
            &&& plane_holds(old(img.u)@.len(), img.u_stride, (size.width as int + 1) / 2, (size.height as int + 1) / 2)
            &&& plane_holds(old(img.v)@.len(), img.v_stride, (size.width as int + 1) / 2, (size.height as int + 1) / 2)
        },
        img.spec_validate(size, function) == planar3_result(
            old(img.y)@.len(), img.y_stride, old(img.u)@.len(), img.u_stride, old(img.v)@.len(), img.v_stride,
            size, 2, 2, function, Direction::Destination,
        ),
{
    lemma_planar3_holds(
        img.y@.len(), img.y_stride, img.u@.len(), img.u_stride, img.v@.len(), img.v_stride,
        size, 2, 2, function, Direction::Destination,
    );
    assert(img.y.len() == img.y@.len() && img.u.len() == img.u@.len() && img.v.len() == img.v@.len());
}

/// A I422 source (4:2:2) of `size` pixels is accepted exactly when every
/// dimension and stride is a C `int`, the luma plane holds `height` rows of
/// `width` bytes and each chroma plane `height` rows of `ceil(width / 2)` bytes,
/// each row starting one stride after the last; a refusal is the first failing
/// check, worded for a source.
pub proof fn law_i422_image_layout(img: I422Image, size: ImageSize, function: &'static str)
    ensures
        img.spec_validate(size, function) is Ok <==> {
            &&& dims_fit(size)
            &&& plane_holds(img.y@.len(), img.y_stride, size.width as int, size.height as int)
            &&& plane_holds(img.u@.len(), img.u_stride, (size.width as int + 1) / 2, size.height as int)
            &&& plane_holds(img.v@.len(), img.v_stride, (size.width as int + 1) / 2, size.height as int)
        },
        img.spec_validate(size, function) == planar3_result(
            img.y@.len(), img.y_stride, img.u@.len(), img.u_stride, img.v@.len(), img.v_stride,
            size, 1, 2, function, Direction::Source,
        ),
{
    lemma_planar3_holds(
        img.y@.len(), img.y_stride, img.u@.len(), img.u_stride, img.v@.len(), img.v_stride,
        size, 1, 2, function, Direction::Source,
    );
    assert(img.y.len() == img.y@.len() && img.u.len() == img.u@.len() && img.v.len() == img.v@.len());
}

/// A I422 destination (4:2:2) of `size` pixels is accepted exactly when every
/// dimension and stride is a C `int`, the luma plane holds `height` rows of
/// `width` bytes and each chroma plane `height` rows of `ceil(width / 2)` bytes,
/// each row starting one stride after the last; a refusal is the first failing
/// check, worded for a destination.
pub proof fn law_i422_image_mut_layout(img: I422ImageMut, size: ImageSize, function: &'static str)
    ensures
        img.spec_validate(size, function) is Ok <==> {
            &&& dims_fit(size)
            &&& plane_holds(old(img.y)@.len(), img.y_stride, size.width as int, size.height as int)
            &&& plane_holds(old(img.u)@.len(), img.u_stride, (size.width as int + 1) / 2, size.height as int)
            &&& plane_holds(old(img.v)@.len(), img.v_stride, (size.width as int + 1) / 2, size.height as int)
        },
        img.spec_validate(size, function) == planar3_result(
            old(img.y)@.len(), img.y_stride, old(img.u)@.len(), img.u_stride, old(img.v)@.len(), img.v_stride,
            size, 1, 2, function, Direction::Destination,
        ),
{
    lemma_planar3_holds(
        img.y@.len(), img.y_stride, img.u@.len(), img.u_stride, img.v@.len(), img.v_stride,
        size, 1, 2, function, Direction::Destination,
    );
    assert(img.y.len() == img.y@.len() && img.u.len() == img.u@.len() && img.v.len() == img.v@.len());
}

/// A J422 source (4:2:2) of `size` pixels is accepted exactly when every
/// dimension and stride is a C `int`, the luma plane holds `height` rows of
/// `width` bytes and each chroma plane `height` rows of `ceil(width / 2)` bytes,
/// each row starting one stride after the last; a refusal is the first failing
/// check, worded for a source.
pub proof fn law_j422_image_layout(img: J422Image, size: ImageSize, function: &'static str)
    ensures
        img.spec_validate(size, function) is Ok <==> {
            &&& dims_fit(size)
            &&& plane_holds(img.y@.len(), img.y_stride, size.width as int, size.height as int)
            &&& plane_holds(img.u@.len(), img.u_stride, (size.width as int + 1) / 2, size.height as int)
            &&& plane_holds(img.v@.len(), img.v_stride, (size.width as int + 1) / 2, size.height as int)
        },
        img.spec_validate(size, function) == planar3_result(
            img.y@.len(), img.y_stride, img.u@.len(), img.u_stride, img.v@.len(), img.v_stride,
            size, 1, 2, function, Direction::Source,
        ),
{
    lemma_planar3_holds(
        img.y@.len(), img.y_stride, img.u@.len(), img.u_stride, img.v@.len(), img.v_stride,
        size, 1, 2, function, Direction::Source,
    );
    assert(img.y.len() == img.y@.len() && img.u.len() == img.u@.len() && img.v.len() == img.v@.len());
}

/// A J422 destination (4:2:2) of `size` pixels is accepted exactly when every
/// dimension and stride is a C `int`, the luma plane holds `height` rows of
/// `width` bytes and each chroma plane `height` rows of `ceil(width / 2)` bytes,
/// each row starting one stride after the last; a refusal is the first failing
/// check, worded for a destination.
pub proof fn law_j422_image_mut_layout(img: J422ImageMut, size: ImageSize, function: &'static str)
    ensures
        img.spec_validate(size, function) is Ok <==> {
            &&& dims_fit(size)
            &&& plane_holds(old(img.y)@.len(), img.y_stride, size.width as int, size.height as int)
            &&& plane_holds(old(img.u)@.len(), img.u_stride, (size.width as int + 1) / 2, size.height as int)
            &&& plane_holds(old(img.v)@.len(), img.v_stride, (size.width as int + 1) / 2, size.height as int)
        },
        img.spec_validate(size, function) == planar3_result(
            old(img.y)@.len(), img.y_stride, old(img.u)@.len(), img.u_stride, old(img.v)@.len(), img.v_stride,
            size, 1, 2, function, Direction::Destination,
        ),
{
    lemma_planar3_holds(
        img.y@.len(), img.y_stride, img.u@.len(), img.u_stride, img.v@.len(), img.v_stride,
        size, 1, 2, function, Direction::Destination,
    );
    assert(img.y.len() == img.y@.len() && img.u.len() == img.u@.len() && img.v.len() == img.v@.len());
}

/// A H422 source (4:2:2) of `size` pixels is accepted exactly when every
/// dimension and stride is a C `int`, the luma plane holds `height` rows of
/// `width` bytes and each chroma plane `height` rows of `ceil(width / 2)` bytes,
/// each row starting one stride after the last; a refusal is the first failing
/// check, worded for a source.
pub proof fn law_h422_image_layout(img: H422Image, size: ImageSize, function: &'static str)
    ensures
        img.spec_validate(size, function) is Ok <==> {
            &&& dims_fit(size)
            &&& plane_holds(img.y@.len(), img.y_stride, size.width as int, size.height as int)
            &&& plane_holds(img.u@.len(), img.u_stride, (size.width as int + 1) / 2, size.height as int)
            &&& plane_holds(img.v@.len(), img.v_stride, (size.width as int + 1) / 2, size.height as int)
        },
        img.spec_validate(size, function) == planar3_result(
            img.y@.len(), img.y_stride, img.u@.len(), img.u_stride, img.v@.len(), img.v_stride,
            size, 1, 2, function, Direction::Source,
        ),
{
    lemma_planar3_holds(
        img.y@.len(), img.y_stride, img.u@.len(), img.u_stride, img.v@.len(), img.v_stride,
        size, 1, 2, function, Direction::Source,
    );
    assert(img.y.len() == img.y@.len() && img.u.len() == img.u@.len() && img.v.len() == img.v@.len());
}

/// A H422 destination (4:2:2) of `size` pixels is accepted exactly when every
/// dimension and stride is a C `int`, the luma plane holds `height` rows of
/// `width` bytes and each chroma plane `height` rows of `ceil(width / 2)` bytes,
/// each row starting one stride after the last; a refusal is the first failing
/// check, worded for a destination.
pub proof fn law_h422_image_mut_layout(img: H422ImageMut, size: ImageSize, function: &'static str)
    ensures
        img.spec_validate(size, function) is Ok <==> {
            &&& dims_fit(size)
            &&& plane_holds(old(img.y)@.len(), img.y_stride, size.width as int, size.height as int)
            &&& plane_holds(old(img.u)@.len(), img.u_stride, (size.width as int + 1) / 2, size.height as int)
            &&& plane_holds(old(img.v)@.len(), img.v_stride, (size.width as int + 1) / 2, size.height as int)
        },
        img.spec_validate(size, function) == planar3_result(
            old(img.y)@.len(), img.y_stride, old(img.u)@.len(), img.u_stride, old(img.v)@.len(), img.v_stride,
            size, 1, 2, function, Direction::Destination,
        ),
{
    lemma_planar3_holds(
        img.y@.len(), img.y_stride, img.u@.len(), img.u_stride, img.v@.len(), img.v_stride,
        size, 1, 2, function, Direction::Destination,
    );
    assert(img.y.len() == img.y@.len() && img.u.len() == img.u@.len() && img.v.len() == img.v@.len());
}

/// A U422 source (4:2:2) of `size` pixels is accepted exactly when every
/// dimension and stride is a C `int`, the luma plane holds `height` rows of
/// `width` bytes and each chroma plane `height` rows of `ceil(width / 2)` bytes,
/// each row starting one stride after the last; a refusal is the first failing
/// check, worded for a source.
pub proof fn law_u422_image_layout(img: U422Image, size: ImageSize, function: &'static str)
    ensures
        img.spec_validate(size, function) is Ok <==> {
            &&& dims_fit(size)
            &&& plane_holds(img.y@.len(), img.y_stride, size.width as int, size.height as int)
            &&& plane_holds(img.u@.len(), img.u_stride, (size.width as int + 1) / 2, size.height as int)
            &&& plane_holds(img.v@.len(), img.v_stride, (size.width as int + 1) / 2, size.height as int)
        },
        img.spec_validate(size, function) == planar3_result(
            img.y@.len(), img.y_stride, img.u@.len(), img.u_stride, img.v@.len(), img.v_stride,
            size, 1, 2, function, Direction::Source,
        ),
{
    lemma_planar3_holds(
        img.y@.len(), img.y_stride, img.u@.len(), img.u_stride, img.v@.len(), img.v_stride,
        size, 1, 2, function, Direction::Source,
    );
    assert(img.y.len() == img.y@.len() && img.u.len() == img.u@.len() && img.v.len() == img.v@.len());
}

/// A U422 destination (4:2:2) of `size` pixels is accepted exactly when every
/// dimension and stride is a C `int`, the luma plane holds `height` rows of
/// `width` bytes and each chroma plane `height` rows of `ceil(width / 2)` bytes,
/// each row starting one stride after the last; a refusal is the first failing
/// check, worded for a destination.
pub proof fn law_u422_image_mut_layout(img: U422ImageMut, size: ImageSize, function: &'static str)
    ensures
        img.spec_validate(size, function) is Ok <==> {
            &&& dims_fit(size)
            &&& plane_holds(old(img.y)@.len(), img.y_stride, size.width as int, size.height as int)
            &&& plane_holds(old(img.u)@.len(), img.u_stride, (size.width as int + 1) / 2, size.height as int)
            &&& plane_holds(old(img.v)@.len(), img.v_stride, (size.width as int + 1) / 2, size.height as int)
        },
        img.spec_validate(size, function) == planar3_result(
            old(img.y)@.len(), img.y_stride, old(img.u)@.len(), img.u_stride, old(img.v)@.len(), img.v_stride,
            size, 1, 2, function, Direction::Destination,
        ),
{
    lemma_planar3_holds(
        img.y@.len(), img.y_stride, img.u@.len(), img.u_stride, img.v@.len(), img.v_stride,
        size, 1, 2, function, Direction::Destination,
    );
    assert(img.y.len() == img.y@.len() && img.u.len() == img.u@.len() && img.v.len() == img.v@.len());
}

/// A I444 source (4:4:4) of `size` pixels is accepted exactly when every
/// dimension and stride is a C `int`, the luma plane holds `height` rows of
/// `width` bytes and each chroma plane `height` rows of `width` bytes,
/// each row starting one stride after the last; a refusal is the first failing
/// check, worded for a source.
pub proof fn law_i444_image_layout(img: I444Image, size: ImageSize, function: &'static str)
    ensures
        img.spec_validate(size, function) is Ok <==> {
            &&& dims_fit(size)
            &&& plane_holds(img.y@.len(), img.y_stride, size.width as int, size.height as int)
            &&& plane_holds(img.u@.len(), img.u_stride, size.width as int, size.height as int)
            &&& plane_holds(img.v@.len(), img.v_stride, size.width as int, size.height as int)
        },
        img.spec_validate(size, function) == planar3_result(
            img.y@.len(), img.y_stride, img.u@.len(), img.u_stride, img.v@.len(), img.v_stride,
            size, 1, 1, function, Direction::Source,
        ),
{
    lemma_planar3_holds(
        img.y@.len(), img.y_stride, img.u@.len(), img.u_stride, img.v@.len(), img.v_stride,
        size, 1, 1, function, Direction::Source,
    );
    assert(img.y.len() == img.y@.len() && img.u.len() == img.u@.len() && img.v.len() == img.v@.len());
}

/// A I444 destination (4:4:4) of `size` pixels is accepted exactly when every
/// dimension and stride is a C `int`, the luma plane holds `height` rows of
/// `width` bytes and each chroma plane `height` rows of `width` bytes,
/// each row starting one stride after the last; a refusal is the first failing
/// check, worded for a destination.
pub proof fn law_i444_image_mut_layout(img: I444ImageMut, size: ImageSize, function: &'static str)
    ensures
        img.spec_validate(size, function) is Ok <==> {
            &&& dims_fit(size)
            &&& plane_holds(old(img.y)@.len(), img.y_stride, size.width as int, size.height as int)
            &&& plane_holds(old(img.u)@.len(), img.u_stride, size.width as int, size.height as int)
            &&& plane_holds(old(img.v)@.len(), img.v_stride, size.width as int, size.height as int)
        },
        img.spec_validate(size, function) == planar3_result(
            old(img.y)@.len(), img.y_stride, old(img.u)@.len(), img.u_stride, old(img.v)@.len(), img.v_stride,
            size, 1, 1, function, Direction::Destination,
        ),
{
    lemma_planar3_holds(
        img.y@.len(), img.y_stride, img.u@.len(), img.u_stride, img.v@.len(), img.v_stride,
        size, 1, 1, function, Direction::Destination,
    );
    assert(img.y.len() == img.y@.len() && img.u.len() == img.u@.len() && img.v.len() == img.v@.len());
}

/// A J444 source (4:4:4) of `size` pixels is accepted exactly when every
/// dimension and stride is a C `int`, the luma plane holds `height` rows of
/// `width` bytes and each chroma plane `height` rows of `width` bytes,
/// each row starting one stride after the last; a refusal is the first failing
/// check, worded for a source.
pub proof fn law_j444_image_layout(img: J444Image, size: ImageSize, function: &'static str)
    ensures
        img.spec_validate(size, function) is Ok <==> {
            &&& dims_fit(size)
            &&& plane_holds(img.y@.len(), img.y_stride, size.width as int, size.height as int)
            &&& plane_holds(img.u@.len(), img.u_stride, size.width as int, size.height as int)
            &&& plane_holds(img.v@.len(), img.v_stride, size.width as int, size.height as int)
        },
        img.spec_validate(size, function) == planar3_result(
            img.y@.len(), img.y_stride, img.u@.len(), img.u_stride, img.v@.len(), img.v_stride,
            size, 1, 1, function, Direction::Source,
        ),
{
    lemma_planar3_holds(
        img.y@.len(), img.y_stride, img.u@.len(), img.u_stride, img.v@.len(), img.v_stride,
        size, 1, 1, function, Direction::Source,
    );
    assert(img.y.len() == img.y@.len() && img.u.len() == img.u@.len() && img.v.len() == img.v@.len());
}

/// A J444 destination (4:4:4) of `size` pixels is accepted exactly when every
/// dimension and stride is a C `int`, the luma plane holds `height` rows of
/// `width` bytes and each chroma plane `height` rows of `width` bytes,
/// each row starting one stride after the last; a refusal is the first failing
/// check, worded for a destination.
pub proof fn law_j444_image_mut_layout(img: J444ImageMut, size: ImageSize, function: &'static str)
    ensures
        img.spec_validate(size, function) is Ok <==> {
            &&& dims_fit(size)
            &&& plane_holds(old(img.y)@.len(), img.y_stride, size.width as int, size.height as int)
            &&& plane_holds(old(img.u)@.len(), img.u_stride, size.width as int, size.height as int)
            &&& plane_holds(old(img.v)@.len(), img.v_stride, size.width as int, size.height as int)
        },
        img.spec_validate(size, function) == planar3_result(
            old(img.y)@.len(), img.y_stride, old(img.u)@.len(), img.u_stride, old(img.v)@.len(), img.v_stride,
            size, 1, 1, function, Direction::Destination,
        ),
{
    lemma_planar3_holds(
        img.y@.len(), img.y_stride, img.u@.len(), img.u_stride, img.v@.len(), img.v_stride,
        size, 1, 1, function, Direction::Destination,
    );
    assert(img.y.len() == img.y@.len() && img.u.len() == img.u@.len() && img.v.len() == img.v@.len());
}

/// A H444 source (4:4:4) of `size` pixels is accepted exactly when every
/// dimension and stride is a C `int`, the luma plane holds `height` rows of
/// `width` bytes and each chroma plane `height` rows of `width` bytes,
/// each row starting one stride after the last; a refusal is the first failing
/// check, worded for a source.
pub proof fn law_h444_image_layout(img: H444Image, size: ImageSize, function: &'static str)
    ensures
        img.spec_validate(size, function) is Ok <==> {
            &&& dims_fit(size)
            &&& plane_holds(img.y@.len(), img.y_stride, size.width as int, size.height as int)
            &&& plane_holds(img.u@.len(), img.u_stride, size.width as int, size.height as int)
            &&& plane_holds(img.v@.len(), img.v_stride, size.width as int, size.height as int)
        },
        img.spec_validate(size, function) == planar3_result(
            img.y@.len(), img.y_stride, img.u@.len(), img.u_stride, img.v@.len(), img.v_stride,
            size, 1, 1, function, Direction::Source,
        ),
{
    lemma_planar3_holds(
        img.y@.len(), img.y_stride, img.u@.len(), img.u_stride, img.v@.len(), img.v_stride,
        size, 1, 1, function, Direction::Source,
    );
    assert(img.y.len() == img.y@.len() && img.u.len() == img.u@.len() && img.v.len() == img.v@.len());
}

/// A H444 destination (4:4:4) of `size` pixels is accepted exactly when every
/// dimension and stride is a C `int`, the luma plane holds `height` rows of
/// `width` bytes and each chroma plane `height` rows of `width` bytes,
/// each row starting one stride after the last; a refusal is the first failing
/// check, worded for a destination.
pub proof fn law_h444_image_mut_layout(img: H444ImageMut, size: ImageSize, function: &'static str)
    ensures
        img.spec_validate(size, function) is Ok <==> {
            &&& dims_fit(size)
            &&& plane_holds(old(img.y)@.len(), img.y_stride, size.width as int, size.height as int)
            &&& plane_holds(old(img.u)@.len(), img.u_stride, size.width as int, size.height as int)
            &&& plane_holds(old(img.v)@.len(), img.v_stride, size.width as int, size.height as int)
        },
        img.spec_validate(size, function) == planar3_result(
            old(img.y)@.len(), img.y_stride, old(img.u)@.len(), img.u_stride, old(img.v)@.len(), img.v_stride,
            size, 1, 1, function, Direction::Destination,
        ),
{
    lemma_planar3_holds(
        img.y@.len(), img.y_stride, img.u@.len(), img.u_stride, img.v@.len(), img.v_stride,
        size, 1, 1, function, Direction::Destination,
    );
    assert(img.y.len() == img.y@.len() && img.u.len() == img.u@.len() && img.v.len() == img.v@.len());
}

/// A U444 source (4:4:4) of `size` pixels is accepted exactly when every
/// dimension and stride is a C `int`, the luma plane holds `height` rows of
/// `width` bytes and each chroma plane `height` rows of `width` bytes,
/// each row starting one stride after the last; a refusal is the first failing
/// check, worded for a source.
pub proof fn law_u444_image_layout(img: U444Image, size: ImageSize, function: &'static str)
    ensures
        img.spec_validate(size, function) is Ok <==> {
            &&& dims_fit(size)
            &&& plane_holds(img.y@.len(), img.y_stride, size.width as int, size.height as int)
            &&& plane_holds(img.u@.len(), img.u_stride, size.width as int, size.height as int)
            &&& plane_holds(img.v@.len(), img.v_stride, size.width as int, size.height as int)
        },
        img.spec_validate(size, function) == planar3_result(
            img.y@.len(), img.y_stride, img.u@.len(), img.u_stride, img.v@.len(), img.v_stride,
            size, 1, 1, function, Direction::Source,
        ),
{
    lemma_planar3_holds(
        img.y@.len(), img.y_stride, img.u@.len(), img.u_stride, img.v@.len(), img.v_stride,
        size, 1, 1, function, Direction::Source,
    );
    assert(img.y.len() == img.y@.len() && img.u.len() == img.u@.len() && img.v.len() == img.v@.len());
}

/// A U444 destination (4:4:4) of `size` pixels is accepted exactly when every
/// dimension and stride is a C `int`, the luma plane holds `height` rows of
/// `width` bytes and each chroma plane `height` rows of `width` bytes,
/// each row starting one stride after the last; a refusal is the first failing
/// check, worded for a destination.
pub proof fn law_u444_image_mut_layout(img: U444ImageMut, size: ImageSize, function: &'static str)
    ensures
        img.spec_validate(size, function) is Ok <==> {
            &&& dims_fit(size)
            &&& plane_holds(old(img.y)@.len(), img.y_stride, size.width as int, size.height as int)
            &&& plane_holds(old(img.u)@.len(), img.u_stride, size.width as int, size.height as int)
            &&& plane_holds(old(img.v)@.len(), img.v_stride, size.width as int, size.height as int)
        },
        img.spec_validate(size, function) == planar3_result(
            old(img.y)@.len(), img.y_stride, old(img.u)@.len(), img.u_stride, old(img.v)@.len(), img.v_stride,
            size, 1, 1, function, Direction::Destination,
        ),
{
    lemma_planar3_holds(
        img.y@.len(), img.y_stride, img.u@.len(), img.u_stride, img.v@.len(), img.v_stride,
        size, 1, 1, function, Direction::Destination,
    );
    assert(img.y.len() == img.y@.len() && img.u.len() == img.u@.len() && img.v.len() == img.v@.len());
}

/// A I010 source (4:2:0) of `size` pixels is accepted exactly when every
/// dimension and stride is a C `int`, the luma plane holds `height` rows of
/// `width` 16-bit samples and each chroma plane `ceil(height / 2)` rows of `ceil(width / 2)` 16-bit samples,
/// each row starting one stride after the last; a refusal is the first failing
/// check, worded for a source.
pub proof fn law_i010_image_layout(img: I010Image, size: ImageSize, function: &'static str)
    ensures
        img.spec_validate(size, function) is Ok <==> {
            &&& dims_fit(size)
            &&& plane_holds(img.y@.len(), img.y_stride, size.width as int, size.height as int)
            &&& plane_holds(img.u@.len(), img.u_stride, (size.width as int + 1) / 2, (size.height as int + 1) / 2)
            &&& plane_holds(img.v@.len(), img.v_stride, (size.width as int + 1) / 2, (size.height as int + 1) / 2)
        },
        img.spec_validate(size, function) == planar3_result(
            img.y@.len(), img.y_stride, img.u@.len(), img.u_stride, img.v@.len(), img.v_stride,
            size, 2, 2, function, Direction::Source,
        ),
{
    lemma_planar3_holds(
        img.y@.len(), img.y_stride, img.u@.len(), img.u_stride, img.v@.len(), img.v_stride,
        size, 2, 2, function, Direction::Source,
    );
    assert(img.y.len() == img.y@.len() && img.u.len() == img.u@.len() && img.v.len() == img.v@.len());
}

/// A I010 destination (4:2:0) of `size` pixels is accepted exactly when every
/// dimension and stride is a C `int`, the luma plane holds `height` rows of
/// `width` 16-bit samples and each chroma plane `ceil(height / 2)` rows of `ceil(width / 2)` 16-bit samples,
/// each row starting one stride after the last; a refusal is the first failing
/// check, worded for a destination.
pub proof fn law_i010_image_mut_layout(img: I010ImageMut, size: ImageSize, function: &'static str)
    ensures
        img.spec_validate(size, function) is Ok <==> {
            &&& dims_fit(size)
            &&& plane_holds(old(img.y)@.len(), img.y_stride, size.width as int, size.height as int)
            &&& plane_holds(old(img.u)@.len(), img.u_stride, (size.width as int + 1) / 2, (size.height as int + 1) / 2)
            &&& plane_holds(old(img.v)@.len(), img.v_stride, (size.width as int + 1) / 2, (size.height as int + 1) / 2)
        },
        img.spec_validate(size, function) == planar3_result(
            old(img.y)@.len(), img.y_stride, old(img.u)@.len(), img.u_stride, old(img.v)@.len(), img.v_stride,
            size, 2, 2, function, Direction::Destination,
        ),
{
    lemma_planar3_holds(
        img.y@.len(), img.y_stride, img.u@.len(), img.u_stride, img.v@.len(), img.v_stride,
        size, 2, 2, function, Direction::Destination,
    );
    assert(img.y.len() == img.y@.len() && img.u.len() == img.u@.len() && img.v.len() == img.v@.len());
}

/// A I012 source (4:2:0) of `size` pixels is accepted exactly when every
/// dimension and stride is a C `int`, the luma plane holds `height` rows of
/// `width` 16-bit samples and each chroma plane `ceil(height / 2)` rows of `ceil(width / 2)` 16-bit samples,
/// each row starting one stride after the last; a refusal is the first failing
/// check, worded for a source.
pub proof fn law_i012_image_layout(img: I012Image, size: ImageSize, function: &'static str)
    ensures
        img.spec_validate(size, function) is Ok <==> {
            &&& dims_fit(size)
            &&& plane_holds(img.y@.len(), img.y_stride, size.width as int, size.height as int)
            &&& plane_holds(img.u@.len(), img.u_stride, (size.width as int + 1) / 2, (size.height as int + 1) / 2)
            &&& plane_holds(img.v@.len(), img.v_stride, (size.width as int + 1) / 2, (size.height as int + 1) / 2)
        },
        img.spec_validate(size, function) == planar3_result(
            img.y@.len(), img.y_stride, img.u@.len(), img.u_stride, img.v@.len(), img.v_stride,
            size, 2, 2, function, Direction::Source,
        ),
{
    lemma_planar3_holds(
        img.y@.len(), img.y_stride, img.u@.len(), img.u_stride, img.v@.len(), img.v_stride,
        size, 2, 2, function, Direction::Source,
    );
    assert(img.y.len() == img.y@.len() && img.u.len() == img.u@.len() && img.v.len() == img.v@.len());
}

/// A I012 destination (4:2:0) of `size` pixels is accepted exactly when every
/// dimension and stride is a C `int`, the luma plane holds `height` rows of
/// `width` 16-bit samples and each chroma plane `ceil(height / 2)` rows of `ceil(width / 2)` 16-bit samples,
/// each row starting one stride after the last; a refusal is the first failing
/// check, worded for a destination.
pub proof fn law_i012_image_mut_layout(img: I012ImageMut, size: ImageSize, function: &'static str)
    ensures
        img.spec_validate(size, function) is Ok <==> {
            &&& dims_fit(size)
            &&& plane_holds(old(img.y)@.len(), img.y_stride, size.width as int, size.height as int)
            &&& plane_holds(old(img.u)@.len(), img.u_stride, (size.width as int + 1) / 2, (size.height as int + 1) / 2)
            &&& plane_holds(old(img.v)@.len(), img.v_stride, (size.width as int + 1) / 2, (size.height as int + 1) / 2)
        },
        img.spec_validate(size, function) == planar3_result(
            old(img.y)@.len(), img.y_stride, old(img.u)@.len(), img.u_stride, old(img.v)@.len(), img.v_stride,
            size, 2, 2, function, Direction::Destination,
        ),
{
    lemma_planar3_holds(
        img.y@.len(), img.y_stride, img.u@.len(), img.u_stride, img.v@.len(), img.v_stride,
        size, 2, 2, function, Direction::Destination,
    );
    assert(img.y.len() == img.y@.len() && img.u.len() == img.u@.len() && img.v.len() == img.v@.len());
}

/// A H010 source (4:2:0) of `size` pixels is accepted exactly when every
/// dimension and stride is a C `int`, the luma plane holds `height` rows of
/// `width` 16-bit samples and each chroma plane `ceil(height / 2)` rows of `ceil(width / 2)` 16-bit samples,
/// each row starting one stride after the last; a refusal is the first failing
/// check, worded for a source.
pub proof fn law_h010_image_layout(img: H010Image, size: ImageSize, function: &'static str)
    ensures
        img.spec_validate(size, function) is Ok <==> {
            &&& dims_fit(size)
            &&& plane_holds(img.y@.len(), img.y_stride, size.width as int, size.height as int)
            &&& plane_holds(img.u@.len(), img.u_stride, (size.width as int + 1) / 2, (size.height as int + 1) / 2)
            &&& plane_holds(img.v@.len(), img.v_stride, (size.width as int + 1) / 2, (size.height as int + 1) / 2)
        },
        img.spec_validate(size, function) == planar3_result(
            img.y@.len(), img.y_stride, img.u@.len(), img.u_stride, img.v@.len(), img.v_stride,
            size, 2, 2, function, Direction::Source,
        ),
{
    lemma_planar3_holds(
        img.y@.len(), img.y_stride, img.u@.len(), img.u_stride, img.v@.len(), img.v_stride,
        size, 2, 2, function, Direction::Source,
    );
    assert(img.y.len() == img.y@.len() && img.u.len() == img.u@.len() && img.v.len() == img.v@.len());
}

/// A H010 destination (4:2:0) of `size` pixels is accepted exactly when every
/// dimension and stride is a C `int`, the luma plane holds `height` rows of
/// `width` 16-bit samples and each chroma plane `ceil(height / 2)` rows of `ceil(width / 2)` 16-bit samples,
/// each row starting one stride after the last; a refusal is the first failing
/// check, worded for a destination.
pub proof fn law_h010_image_mut_layout(img: H010ImageMut, size: ImageSize, function: &'static str)
    ensures
        img.spec_validate(size, function) is Ok <==> {
            &&& dims_fit(size)
            &&& plane_holds(old(img.y)@.len(), img.y_stride, size.width as int, size.height as int)
            &&& plane_holds(old(img.u)@.len(), img.u_stride, (size.width as int + 1) / 2, (size.height as int + 1) / 2)
            &&& plane_holds(old(img.v)@.len(), img.v_stride, (size.width as int + 1) / 2, (size.height as int + 1) / 2)
        },
        img.spec_validate(size, function) == planar3_result(
            old(img.y)@.len(), img.y_stride, old(img.u)@.len(), img.u_stride, old(img.v)@.len(), img.v_stride,
            size, 2, 2, function, Direction::Destination,
        ),
{
    lemma_planar3_holds(
        img.y@.len(), img.y_stride, img.u@.len(), img.u_stride, img.v@.len(), img.v_stride,
        size, 2, 2, function, Direction::Destination,
    );
    assert(img.y.len() == img.y@.len() && img.u.len() == img.u@.len() && img.v.len() == img.v@.len());
}

/// A U010 source (4:2:0) of `size` pixels is accepted exactly when every
/// dimension and stride is a C `int`, the luma plane holds `height` rows of
/// `width` 16-bit samples and each chroma plane `ceil(height / 2)` rows of `ceil(width / 2)` 16-bit samples,
/// each row starting one stride after the last; a refusal is the first failing
/// check, worded for a source.
pub proof fn law_u010_image_layout(img: U010Image, size: ImageSize, function: &'static str)
    ensures
        img.spec_validate(size, function) is Ok <==> {
            &&& dims_fit(size)
            &&& plane_holds(img.y@.len(), img.y_stride, size.width as int, size.height as int)
            &&& plane_holds(img.u@.len(), img.u_stride, (size.width as int + 1) / 2, (size.height as int + 1) / 2)
            &&& plane_holds(img.v@.len(), img.v_stride, (size.width as int + 1) / 2, (size.height as int + 1) / 2)
        },
        img.spec_validate(size, function) == planar3_result(
            img.y@.len(), img.y_stride, img.u@.len(), img.u_stride, img.v@.len(), img.v_stride,
            size, 2, 2, function, Direction::Source,
        ),
{
    lemma_planar3_holds(
        img.y@.len(), img.y_stride, img.u@.len(), img.u_stride, img.v@.len(), img.v_stride,
        size, 2, 2, function, Direction::Source,
    );
    assert(img.y.len() == img.y@.len() && img.u.len() == img.u@.len() && img.v.len() == img.v@.len());
}

/// A U010 destination (4:2:0) of `size` pixels is accepted exactly when every
/// dimension and stride is a C `int`, the luma plane holds `height` rows of
/// `width` 16-bit samples and each chroma plane `ceil(height / 2)` rows of `ceil(width / 2)` 16-bit samples,
/// each row starting one stride after the last; a refusal is the first failing
/// check, worded for a destination.
pub proof fn law_u010_image_mut_layout(img: U010ImageMut, size: ImageSize, function: &'static str)
    ensures
        img.spec_validate(size, function) is Ok <==> {
            &&& dims_fit(size)
            &&& plane_holds(old(img.y)@.len(), img.y_stride, size.width as int, size.height as int)
            &&& plane_holds(old(img.u)@.len(), img.u_stride, (size.width as int + 1) / 2, (size.height as int + 1) / 2)
            &&& plane_holds(old(img.v)@.len(), img.v_stride, (size.width as int + 1) / 2, (size.height as int + 1) / 2)
        },
        img.spec_validate(size, function) == planar3_result(
            old(img.y)@.len(), img.y_stride, old(img.u)@.len(), img.u_stride, old(img.v)@.len(), img.v_stride,
            size, 2, 2, function, Direction::Destination,
        ),
{
    lemma_planar3_holds(
        img.y@.len(), img.y_stride, img.u@.len(), img.u_stride, img.v@.len(), img.v_stride,
        size, 2, 2, function, Direction::Destination,
    );
    assert(img.y.len() == img.y@.len() && img.u.len() == img.u@.len() && img.v.len() == img.v@.len());
}

/// A I210 source (4:2:2) of `size` pixels is accepted exactly when every
/// dimension and stride is a C `int`, the luma plane holds `height` rows of
/// `width` 16-bit samples and each chroma plane `height` rows of `ceil(width / 2)` 16-bit samples,
/// each row starting one stride after the last; a refusal is the first failing
/// check, worded for a source.
pub proof fn law_i210_image_layout(img: I210Image, size: ImageSize, function: &'static str)
    ensures
        img.spec_validate(size, function) is Ok <==> {
            &&& dims_fit(size)
            &&& plane_holds(img.y@.len(), img.y_stride, size.width as int, size.height as int)
            &&& plane_holds(img.u@.len(), img.u_stride, (size.width as int + 1) / 2, size.height as int)
            &&& plane_holds(img.v@.len(), img.v_stride, (size.width as int + 1) / 2, size.height as int)
        },
        img.spec_validate(size, function) == planar3_result(
            img.y@.len(), img.y_stride, img.u@.len(), img.u_stride, img.v@.len(), img.v_stride,
            size, 1, 2, function, Direction::Source,
        ),
{
    lemma_planar3_holds(
        img.y@.len(), img.y_stride, img.u@.len(), img.u_stride, img.v@.len(), img.v_stride,
        size, 1, 2, function, Direction::Source,
    );
    assert(img.y.len() == img.y@.len() && img.u.len() == img.u@.len() && img.v.len() == img.v@.len());
}

/// A I210 destination (4:2:2) of `size` pixels is accepted exactly when every
/// dimension and stride is a C `int`, the luma plane holds `height` rows of
/// `width` 16-bit samples and each chroma plane `height` rows of `ceil(width / 2)` 16-bit samples,
/// each row starting one stride after the last; a refusal is the first failing
/// check, worded for a destination.
pub proof fn law_i210_image_mut_layout(img: I210ImageMut, size: ImageSize, function: &'static str)
    ensures
        img.spec_validate(size, function) is Ok <==> {
            &&& dims_fit(size)
            &&& plane_holds(old(img.y)@.len(), img.y_stride, size.width as int, size.height as int)
            &&& plane_holds(old(img.u)@.len(), img.u_stride, (size.width as int + 1) / 2, size.height as int)
            &&& plane_holds(old(img.v)@.len(), img.v_stride, (size.width as int + 1) / 2, size.height as int)
        },
        img.spec_validate(size, function) == planar3_result(
            old(img.y)@.len(), img.y_stride, old(img.u)@.len(), img.u_stride, old(img.v)@.len(), img.v_stride,
            size, 1, 2, function, Direction::Destination,
        ),
{
    lemma_planar3_holds(
        img.y@.len(), img.y_stride, img.u@.len(), img.u_stride, img.v@.len(), img.v_stride,
        size, 1, 2, function, Direction::Destination,
    );
    assert(img.y.len() == img.y@.len() && img.u.len() == img.u@.len() && img.v.len() == img.v@.len());
}

/// A I212 source (4:2:2) of `size` pixels is accepted exactly when every
/// dimension and stride is a C `int`, the luma plane holds `height` rows of
/// `width` 16-bit samples and each chroma plane `height` rows of `ceil(width / 2)` 16-bit samples,
/// each row starting one stride after the last; a refusal is the first failing
/// check, worded for a source.
pub proof fn law_i212_image_layout(img: I212Image, size: ImageSize, function: &'static str)
    ensures
        img.spec_validate(size, function) is Ok <==> {
            &&& dims_fit(size)
            &&& plane_holds(img.y@.len(), img.y_stride, size.width as int, size.height as int)
            &&& plane_holds(img.u@.len(), img.u_stride, (size.width as int + 1) / 2, size.height as int)
            &&& plane_holds(img.v@.len(), img.v_stride, (size.width as int + 1) / 2, size.height as int)
        },
        img.spec_validate(size, function) == planar3_result(
            img.y@.len(), img.y_stride, img.u@.len(), img.u_stride, img.v@.len(), img.v_stride,
            size, 1, 2, function, Direction::Source,
        ),
{
    lemma_planar3_holds(
        img.y@.len(), img.y_stride, img.u@.len(), img.u_stride, img.v@.len(), img.v_stride,
        size, 1, 2, function, Direction::Source,
    );
    assert(img.y.len() == img.y@.len() && img.u.len() == img.u@.len() && img.v.len() == img.v@.len());
}

/// A I212 destination (4:2:2) of `size` pixels is accepted exactly when every
/// dimension and stride is a C `int`, the luma plane holds `height` rows of
/// `width` 16-bit samples and each chroma plane `height` rows of `ceil(width / 2)` 16-bit samples,
/// each row starting one stride after the last; a refusal is the first failing
/// check, worded for a destination.
pub proof fn law_i212_image_mut_layout(img: I212ImageMut, size: ImageSize, function: &'static str)
    ensures
        img.spec_validate(size, function) is Ok <==> {
            &&& dims_fit(size)
            &&& plane_holds(old(img.y)@.len(), img.y_stride, size.width as int, size.height as int)
            &&& plane_holds(old(img.u)@.len(), img.u_stride, (size.width as int + 1) / 2, size.height as int)
            &&& plane_holds(old(img.v)@.len(), img.v_stride, (size.width as int + 1) / 2, size.height as int)
        },
        img.spec_validate(size, function) == planar3_result(
            old(img.y)@.len(), img.y_stride, old(img.u)@.len(), img.u_stride, old(img.v)@.len(), img.v_stride,
            size, 1, 2, function, Direction::Destination,
        ),
{
    lemma_planar3_holds(
        img.y@.len(), img.y_stride, img.u@.len(), img.u_stride, img.v@.len(), img.v_stride,
        size, 1, 2, function, Direction::Destination,
    );
    assert(img.y.len() == img.y@.len() && img.u.len() == img.u@.len() && img.v.len() == img.v@.len());
}

/// A H210 source (4:2:2) of `size` pixels is accepted exactly when every
/// dimension and stride is a C `int`, the luma plane holds `height` rows of
/// `width` 16-bit samples and each chroma plane `height` rows of `ceil(width / 2)` 16-bit samples,
/// each row starting one stride after the last; a refusal is the first failing
/// check, worded for a source.
pub proof fn law_h210_image_layout(img: H210Image, size: ImageSize, function: &'static str)
    ensures
        img.spec_validate(size, function) is Ok <==> {
            &&& dims_fit(size)
            &&& plane_holds(img.y@.len(), img.y_stride, size.width as int, size.height as int)
            &&& plane_holds(img.u@.len(), img.u_stride, (size.width as int + 1) / 2, size.height as int)
            &&& plane_holds(img.v@.len(), img.v_stride, (size.width as int + 1) / 2, size.height as int)
        },
        img.spec_validate(size, function) == planar3_result(
            img.y@.len(), img.y_stride, img.u@.len(), img.u_stride, img.v@.len(), img.v_stride,
            size, 1, 2, function, Direction::Source,
        ),
{
    lemma_planar3_holds(
        img.y@.len(), img.y_stride, img.u@.len(), img.u_stride, img.v@.len(), img.v_stride,
        size, 1, 2, function, Direction::Source,
    );
    assert(img.y.len() == img.y@.len() && img.u.len() == img.u@.len() && img.v.len() == img.v@.len());
}

/// A H210 destination (4:2:2) of `size` pixels is accepted exactly when every
/// dimension and stride is a C `int`, the luma plane holds `height` rows of
/// `width` 16-bit samples and each chroma plane `height` rows of `ceil(width / 2)` 16-bit samples,
/// each row starting one stride after the last; a refusal is the first failing
/// check, worded for a destination.
pub proof fn law_h210_image_mut_layout(img: H210ImageMut, size: ImageSize, function: &'static str)
    ensures
        img.spec_validate(size, function) is Ok <==> {
            &&& dims_fit(size)
            &&& plane_holds(old(img.y)@.len(), img.y_stride, size.width as int, size.height as int)
            &&& plane_holds(old(img.u)@.len(), img.u_stride, (size.width as int + 1) / 2, size.height as int)
            &&& plane_holds(old(img.v)@.len(), img.v_stride, (size.width as int + 1) / 2, size.height as int)
        },
        img.spec_validate(size, function) == planar3_result(
            old(img.y)@.len(), img.y_stride, old(img.u)@.len(), img.u_stride, old(img.v)@.len(), img.v_stride,
            size, 1, 2, function, Direction::Destination,
        ),
{
    lemma_planar3_holds(
        img.y@.len(), img.y_stride, img.u@.len(), img.u_stride, img.v@.len(), img.v_stride,
        size, 1, 2, function, Direction::Destination,
    );
    assert(img.y.len() == img.y@.len() && img.u.len() == img.u@.len() && img.v.len() == img.v@.len());
}

/// A U210 source (4:2:2) of `size` pixels is accepted exactly when every
/// dimension and stride is a C `int`, the luma plane holds `height` rows of
/// `width` 16-bit samples and each chroma plane `height` rows of `ceil(width / 2)` 16-bit samples,
/// each row starting one stride after the last; a refusal is the first failing
/// check, worded for a source.
pub proof fn law_u210_image_layout(img: U210Image, size: ImageSize, function: &'static str)
    ensures
        img.spec_validate(size, function) is Ok <==> {
            &&& dims_fit(size)
            &&& plane_holds(img.y@.len(), img.y_stride, size.width as int, size.height as int)
            &&& plane_holds(img.u@.len(), img.u_stride, (size.width as int + 1) / 2, size.height as int)
            &&& plane_holds(img.v@.len(), img.v_stride, (size.width as int + 1) / 2, size.height as int)
        },
        img.spec_validate(size, function) == planar3_result(
            img.y@.len(), img.y_stride, img.u@.len(), img.u_stride, img.v@.len(), img.v_stride,
            size, 1, 2, function, Direction::Source,
        ),
{
    lemma_planar3_holds(
        img.y@.len(), img.y_stride, img.u@.len(), img.u_stride, img.v@.len(), img.v_stride,
        size, 1, 2, function, Direction::Source,
    );
    assert(img.y.len() == img.y@.len() && img.u.len() == img.u@.len() && img.v.len() == img.v@.len());
}

/// A U210 destination (4:2:2) of `size` pixels is accepted exactly when every
/// dimension and stride is a C `int`, the luma plane holds `height` rows of
/// `width` 16-bit samples and each chroma plane `height` rows of `ceil(width / 2)` 16-bit samples,
/// each row starting one stride after the last; a refusal is the first failing
/// check, worded for a destination.
pub proof fn law_u210_image_mut_layout(img: U210ImageMut, size: ImageSize, function: &'static str)
    ensures
        img.spec_validate(size, function) is Ok <==> {
            &&& dims_fit(size)
            &&& plane_holds(old(img.y)@.len(), img.y_stride, size.width as int, size.height as int)
            &&& plane_holds(old(img.u)@.len(), img.u_stride, (size.width as int + 1) / 2, size.height as int)
            &&& plane_holds(old(img.v)@.len(), img.v_stride, (size.width as int + 1) / 2, size.height as int)
        },
        img.spec_validate(size, function) == planar3_result(
            old(img.y)@.len(), img.y_stride, old(img.u)@.len(), img.u_stride, old(img.v)@.len(), img.v_stride,
            size, 1, 2, function, Direction::Destination,
        ),
{
    lemma_planar3_holds(
        img.y@.len(), img.y_stride, img.u@.len(), img.u_stride, img.v@.len(), img.v_stride,
        size, 1, 2, function, Direction::Destination,
    );
    assert(img.y.len() == img.y@.len() && img.u.len() == img.u@.len() && img.v.len() == img.v@.len());
}

/// A I410 source (4:4:4) of `size` pixels is accepted exactly when every
/// dimension and stride is a C `int`, the luma plane holds `height` rows of
/// `width` 16-bit samples and each chroma plane `height` rows of `width` 16-bit samples,
/// each row starting one stride after the last; a refusal is the first failing
/// check, worded for a source.
pub proof fn law_i410_image_layout(img: I410Image, size: ImageSize, function: &'static str)
    ensures
        img.spec_validate(size, function) is Ok <==> {
            &&& dims_fit(size)
            &&& plane_holds(img.y@.len(), img.y_stride, size.width as int, size.height as int)
            &&& plane_holds(img.u@.len(), img.u_stride, size.width as int, size.height as int)
            &&& plane_holds(img.v@.len(), img.v_stride, size.width as int, size.height as int)
        },
        img.spec_validate(size, function) == planar3_result(
            img.y@.len(), img.y_stride, img.u@.len(), img.u_stride, img.v@.len(), img.v_stride,
            size, 1, 1, function, Direction::Source,
        ),
{
    lemma_planar3_holds(
        img.y@.len(), img.y_stride, img.u@.len(), img.u_stride, img.v@.len(), img.v_stride,
        size, 1, 1, function, Direction::Source,
    );
    assert(img.y.len() == img.y@.len() && img.u.len() == img.u@.len() && img.v.len() == img.v@.len());
}

/// A I410 destination (4:4:4) of `size` pixels is accepted exactly when every
/// dimension and stride is a C `int`, the luma plane holds `height` rows of
/// `width` 16-bit samples and each chroma plane `height` rows of `width` 16-bit samples,
/// each row starting one stride after the last; a refusal is the first failing
/// check, worded for a destination.
pub proof fn law_i410_image_mut_layout(img: I410ImageMut, size: ImageSize, function: &'static str)
    ensures
        img.spec_validate(size, function) is Ok <==> {
            &&& dims_fit(size)
            &&& plane_holds(old(img.y)@.len(), img.y_stride, size.width as int, size.height as int)
            &&& plane_holds(old(img.u)@.len(), img.u_stride, size.width as int, size.height as int)
            &&& plane_holds(old(img.v)@.len(), img.v_stride, size.width as int, size.height as int)
        },
        img.spec_validate(size, function) == planar3_result(
            old(img.y)@.len(), img.y_stride, old(img.u)@.len(), img.u_stride, old(img.v)@.len(), img.v_stride,
            size, 1, 1, function, Direction::Destination,
        ),
{
    lemma_planar3_holds(
        img.y@.len(), img.y_stride, img.u@.len(), img.u_stride, img.v@.len(), img.v_stride,
        size, 1, 1, function, Direction::Destination,
    );
    assert(img.y.len() == img.y@.len() && img.u.len() == img.u@.len() && img.v.len() == img.v@.len());
}

/// A I412 source (4:4:4) of `size` pixels is accepted exactly when every
/// dimension and stride is a C `int`, the luma plane holds `height` rows of
/// `width` 16-bit samples and each chroma plane `height` rows of `width` 16-bit samples,
/// each row starting one stride after the last; a refusal is the first failing
/// check, worded for a source.
pub proof fn law_i412_image_layout(img: I412Image, size: ImageSize, function: &'static str)
    ensures
        img.spec_validate(size, function) is Ok <==> {
            &&& dims_fit(size)
            &&& plane_holds(img.y@.len(), img.y_stride, size.width as int, size.height as int)
            &&& plane_holds(img.u@.len(), img.u_stride, size.width as int, size.height as int)
            &&& plane_holds(img.v@.len(), img.v_stride, size.width as int, size.height as int)
        },
        img.spec_validate(size, function) == planar3_result(
            img.y@.len(), img.y_stride, img.u@.len(), img.u_stride, img.v@.len(), img.v_stride,
            size, 1, 1, function, Direction::Source,
        ),
{
    lemma_planar3_holds(
        img.y@.len(), img.y_stride, img.u@.len(), img.u_stride, img.v@.len(), img.v_stride,
        size, 1, 1, function, Direction::Source,
    );
    assert(img.y.len() == img.y@.len() && img.u.len() == img.u@.len() && img.v.len() == img.v@.len());
}

/// A I412 destination (4:4:4) of `size` pixels is accepted exactly when every
/// dimension and stride is a C `int`, the luma plane holds `height` rows of
/// `width` 16-bit samples and each chroma plane `height` rows of `width` 16-bit samples,
/// each row starting one stride after the last; a refusal is the first failing
/// check, worded for a destination.
pub proof fn law_i412_image_mut_layout(img: I412ImageMut, size: ImageSize, function: &'static str)
    ensures
        img.spec_validate(size, function) is Ok <==> {
            &&& dims_fit(size)
            &&& plane_holds(old(img.y)@.len(), img.y_stride, size.width as int, size.height as int)
            &&& plane_holds(old(img.u)@.len(), img.u_stride, size.width as int, size.height as int)
            &&& plane_holds(old(img.v)@.len(), img.v_stride, size.width as int, size.height as int)
        },
        img.spec_validate(size, function) == planar3_result(
            old(img.y)@.len(), img.y_stride, old(img.u)@.len(), img.u_stride, old(img.v)@.len(), img.v_stride,
            size, 1, 1, function, Direction::Destination,
        ),
{
    lemma_planar3_holds(
        img.y@.len(), img.y_stride, img.u@.len(), img.u_stride, img.v@.len(), img.v_stride,
        size, 1, 1, function, Direction::Destination,
    );
    assert(img.y.len() == img.y@.len() && img.u.len() == img.u@.len() && img.v.len() == img.v@.len());
}

} // verus!
