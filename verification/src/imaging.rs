//! Trusted interface to the outside imaging crates.
//!
//! The scan treats pixel buffers as opaque values: a `GrayBuffer` holds a
//! grayscale image whose pixels only the outside detectors read.  The name
//! `gray_pixels` stands for the buffer's row-major pixel bytes and
//! `gray_width` / `gray_height` for its dimensions; the names `canny_of`
//! and `hough_angles_of` stand for the detectors' results, which are
//! functions of their arguments alone.  Every call into the imaging crates
//! goes through one of the wrappers below; nothing else in the library is
//! trusted.

use vstd::prelude::*;

verus! {

#[verifier::external_type_specification]
#[verifier::external_body]
pub struct ExPolarLine(imageproc::hough::PolarLine);

/// An owned grayscale pixel buffer.  The field is the outside crates'
/// buffer type, which Verus does not look into; the library reads it only
/// through the trusted wrappers of this module.
#[verifier::external_body]
pub struct GrayBuffer {
    inner: image::ImageBuffer<image::Luma<u8>, Vec<u8>>,
}

/// Width in pixels of a grayscale buffer; a fixed attribute of the value.
pub uninterp spec fn gray_width(img: GrayBuffer) -> u32;

/// Height in pixels of a grayscale buffer; a fixed attribute of the value.
pub uninterp spec fn gray_height(img: GrayBuffer) -> u32;

/// The buffer's pixels in row-major order, one byte each: the first
/// `gray_width * gray_height` bytes of its underlying container.
pub uninterp spec fn gray_pixels(img: GrayBuffer) -> Seq<u8>;

/// The row-major bytes of the `w` by `h` rectangle at `(x, y)` of a
/// row-major pixel sequence whose rows are `width` bytes long.
pub open spec fn rect_pixels(pixels: Seq<u8>, width: int, x: int, y: int, w: int, h: int) -> Seq<
    u8,
> {
    Seq::new((w * h) as nat, |n: int| pixels[(y + n / w) * width + x + n % w])
}

/// What `imageproc::edges::canny` returns on the given row-major pixels of
/// a `w` by `h` image and the two hysteresis thresholds: a function of its
/// arguments alone.
pub uninterp spec fn canny_of(pixels: Seq<u8>, w: u32, h: u32, low: u16, high: u16) -> Seq<u8>;

/// The angles, in detection order, of the lines that
/// `imageproc::hough::detect_lines` finds on the given row-major pixels of
/// a `w` by `h` binary edge map: a function of its arguments alone.
pub uninterp spec fn hough_angles_of(
    pixels: Seq<u8>,
    w: u32,
    h: u32,
    vote_threshold: u32,
    suppression_radius: u32,
) -> Seq<u32>;

impl GrayBuffer {
    /// Relies on `image::ImageBuffer::from_raw`: it accepts a row-major
    /// byte container exactly when the container holds at least
    /// `width * height` bytes, and then keeps the given dimensions and
    /// bytes.
    #[verifier::external_body]
    pub fn from_raw(width: u32, height: u32, data: Vec<u8>) -> (r: Option<GrayBuffer>)
        ensures
            r is Some <==> width as int * height as int <= data@.len(),
            r is Some ==> gray_width(r->Some_0) == width && gray_height(r->Some_0) == height,
            r is Some ==> gray_pixels(r->Some_0) == data@.take(width as int * height as int),
    {
        match image::ImageBuffer::from_raw(width, height, data) {
            Some(inner) => Some(GrayBuffer { inner }),
            None => None,
        }
    }

    /// Relies on `image::ImageBuffer::dimensions` and `into_raw`: they
    /// return the buffer's width, height and underlying bytes, of which
    /// the first `width * height` are the pixels (every constructor of the
    /// buffer checks that the container is at least that long).
    #[verifier::external_body]
    pub fn into_parts(self) -> (r: (u32, u32, Vec<u8>))
        ensures
            r.0 == gray_width(self),
            r.1 == gray_height(self),
            r.2@.len() >= r.0 as int * r.1 as int,
            r.2@.take(r.0 as int * r.1 as int) == gray_pixels(self),
    {
        let (w, h) = self.inner.dimensions();
        (w, h, self.inner.into_raw())
    }

    /// Relies on `image::ImageBuffer::dimensions`: it returns the buffer's
    /// width and height.
    #[verifier::external_body]
    pub fn dimensions(&self) -> (r: (u32, u32))
        ensures
            r.0 == gray_width(*self),
            r.1 == gray_height(*self),
    {
        self.inner.dimensions()
    }
}

/// Relies on `image::imageops::crop_imm` and `image::SubImage::to_image`:
/// for a rectangle inside the image they copy exactly that rectangle into a
/// fresh buffer of the requested dimensions.
#[verifier::external_body]
pub(crate) fn extract_tile(img: &GrayBuffer, x: u32, y: u32, w: u32, h: u32) -> (t: GrayBuffer)
    requires
        x + w <= gray_width(*img),
        y + h <= gray_height(*img),
    ensures
        gray_width(t) == w,
        gray_height(t) == h,
        gray_pixels(t) == rect_pixels(
            gray_pixels(*img),
            gray_width(*img) as int,
            x as int,
            y as int,
            w as int,
            h as int,
        ),
{
    GrayBuffer { inner: image::imageops::crop_imm(&img.inner, x, y, w, h).to_image() }
}

/// Relies on `imageproc::edges::canny`: it returns a binary edge map with
/// the same dimensions as its input, a function of the pixels and the two
/// thresholds alone.  The requires keep out canny's panics: it asserts
/// that the thresholds are ordered; its filters walk `1..height - 1`, so
/// empty buffers are kept out; its hysteresis multiplies the dimensions in
/// 32-bit arithmetic, so their product must fit; and a zero low threshold
/// lets the hysteresis flood reach the zero-valued border pixels, whose
/// neighbour coordinates underflow, so the low threshold must be at least
/// one (edge strengths below one then never include the border).  The
/// thresholds convert exactly into canny's wider parameter type,
/// preserving their order.
#[verifier::external_body]
pub(crate) fn canny_edges(img: &GrayBuffer, low: u16, high: u16) -> (e: GrayBuffer)
    requires
        1 <= low,
        low <= high,
        1 <= gray_width(*img),
        1 <= gray_height(*img),
        gray_width(*img) as int * gray_height(*img) as int <= u32::MAX as int,
    ensures
        gray_width(e) == gray_width(*img),
        gray_height(e) == gray_height(*img),
        gray_pixels(e) == canny_of(
            gray_pixels(*img),
            gray_width(*img),
            gray_height(*img),
            low,
            high,
        ),
{
    GrayBuffer { inner: imageproc::edges::canny(&img.inner, low.into(), high.into()) }
}

/// Relies on `imageproc::hough::detect_lines`: the lines it returns are a
/// function of the edge map and the two options alone; each line carries an
/// `angle_in_degrees` below 180, read off the accumulator's 0..180 angle
/// rows.  The requires keep out its panics: the accumulator's radius
/// computation squares the dimensions in 32-bit arithmetic, so the squares
/// must fit, and the non-maximum suppression adds the radius to an
/// accumulator column index (at most `2 * 0xffff + 1`) in 32-bit
/// arithmetic, so the radius is bounded away from the top of the range.
/// Returns the detected lines together with their angles, index for index.
#[verifier::external_body]
pub(crate) fn detect_line_angles(edges: &GrayBuffer, vote_threshold: u32, suppression_radius: u32) -> (r: (
    Vec<imageproc::hough::PolarLine>,
    Vec<u32>,
))
    requires
        gray_width(*edges) as int * gray_width(*edges) as int + gray_height(*edges) as int
            * gray_height(*edges) as int <= u32::MAX as int,
        suppression_radius <= u32::MAX - 0x2_0000,
    ensures
        r.1@.len() == r.0@.len(),
        forall|k: int| 0 <= k < r.1@.len() ==> r.1@[k] < 180,
        r.1@ == hough_angles_of(
            gray_pixels(*edges),
            gray_width(*edges),
            gray_height(*edges),
            vote_threshold,
            suppression_radius,
        ),
{
    let options = imageproc::hough::LineDetectionOptions { vote_threshold, suppression_radius };
    let lines = imageproc::hough::detect_lines(&edges.inner, options);
    let angles = lines.iter().map(|line| line.angle_in_degrees).collect();
    (lines, angles)
}

} // verus!
