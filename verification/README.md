# shiguredo_libyuv

Image buffer layout checking for the libyuv image conversion library, written in
Verus and proved correct.

Every conversion, comparison and decode call into libyuv first checks, in
`src/`, that each plane slice is long enough for the stated width, height and
stride, that every stride and dimension fits in a C `int`, and that no size
computation overflows. The contracts state exactly which inputs are accepted and,
for each refused input, which error (function name, code and reason) comes back.

Layout:

- `src/error.rs`: the error type, status codes and error messages.
- `src/geometry.rs`: image sizes, filter and rotation modes.
- `src/checks.rs`, `src/layout.rs`, `src/tiled.rs`: the plane checks and their
  arithmetic.
- `src/*_images.rs`: the typed image views and their `validate` methods.
- `src/android.rs`, `src/detile.rs`, `src/packed422.rs`, `src/alpha.rs`,
  `src/mjpeg.rs`: the checks made before the special conversions.
- `src/compare.rs`: checks for the comparison functions, and the sum of squared
  errors and the djb2 hash.
- `src/safety.rs`: laws tying an accepted layout to in-bounds plane rows.
- `app/`: the calls into libyuv itself, made after the verified checks pass.
