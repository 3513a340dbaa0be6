//! Rasters and the canvas.
//!
//! Pixels are four bytes each, red, green, blue and alpha, row after row from
//! the top. The canvas is the square that every icon is normalized into: what
//! the scaled source does not cover is transparent.

use crate::error::PipelineError;
use crate::fit::{Placement, CANVAS_EDGE};
use vstd::prelude::*;

verus! {

/// The bytes of one pixel.
pub const CHANNELS: usize = 4;

/// The bytes of a canvas.
pub const CANVAS_BYTES: usize = 262144;

/// The four bytes of the pixel in column `x` and row `y` of a raster that is
/// `width` pixels wide.
pub open spec fn pixel_at(data: Seq<u8>, width: nat, x: int, y: int) -> Seq<u8> {
    data.subrange(4 * (y * width + x), 4 * (y * width + x) + 4)
}

/// What `image`'s `Pixel::blend` makes of an RGBA8 pixel `under` when `over`,
/// whose alpha is neither 0 nor 255, is laid over it. The crate computes it in
/// single precision from the eight bytes alone.
pub uninterp spec fn blended(under: Seq<u8>, over: Seq<u8>) -> Seq<u8>;

/// One pixel laid over another: a transparent one changes nothing, an opaque
/// one replaces what is under it, and any other is blended with it.
pub open spec fn laid_over(under: Seq<u8>, over: Seq<u8>) -> Seq<u8> {
    if over[3] == 0 {
        under
    } else if over[3] == 255 {
        over
    } else {
        blended(under, over)
    }
}

/// Whether column `x` and row `y` lie in the rectangle of the given width and
/// height whose upper left corner is at column `left` and row `upper`.
pub open spec fn covers(left: nat, upper: nat, width: nat, height: nat, x: int, y: int) -> bool {
    left <= x < left + width && upper <= y < upper + height
}

/// The pixel of a raster `width` pixels wide that byte `i` belongs to.
pub open spec fn pixel_of_byte(data: Seq<u8>, width: nat, i: int) -> Seq<u8> {
    pixel_at(data, width, (i / 4) % (width as int), (i / 4) / (width as int))
}

/// Whether byte `i` of a raster `bottom_width` pixels wide lies under a raster
/// of the given width and height whose corner is at `left`, `upper`.
pub open spec fn byte_covered(
    bottom_width: nat,
    top_width: nat,
    top_height: nat,
    left: nat,
    upper: nat,
    i: int,
) -> bool {
    covers(
        left,
        upper,
        top_width,
        top_height,
        (i / 4) % (bottom_width as int),
        (i / 4) / (bottom_width as int),
    )
}

/// The pixel of the upper raster that lies over byte `i` of the lower one.
pub open spec fn pixel_over_byte(
    bottom_width: nat,
    top: Seq<u8>,
    top_width: nat,
    left: nat,
    upper: nat,
    i: int,
) -> Seq<u8> {
    pixel_at(
        top,
        top_width,
        (i / 4) % (bottom_width as int) - left,
        (i / 4) / (bottom_width as int) - upper,
    )
}

/// Byte `i` of a raster `bottom_width` pixels wide after a raster of the given
/// width and height was laid over it with its corner at `left`, `upper`.
pub open spec fn overlaid_byte(
    bottom: Seq<u8>,
    bottom_width: nat,
    top: Seq<u8>,
    top_width: nat,
    top_height: nat,
    left: nat,
    upper: nat,
    i: int,
) -> u8 {
    if byte_covered(bottom_width, top_width, top_height, left, upper, i) {
        laid_over(
            pixel_of_byte(bottom, bottom_width, i),
            pixel_over_byte(bottom_width, top, top_width, left, upper, i),
        )[i % 4]
    } else {
        bottom[i]
    }
}

/// A raster after another was laid over it.
pub open spec fn overlaid(
    bottom: Seq<u8>,
    bottom_width: nat,
    top: Seq<u8>,
    top_width: nat,
    top_height: nat,
    left: nat,
    upper: nat,
) -> Seq<u8> {
    Seq::new(
        bottom.len(),
        |i: int| overlaid_byte(bottom, bottom_width, top, top_width, top_height, left, upper, i),
    )
}

/// Calls `image::imageops::overlay` on two RGBA8 buffers, the upper one lying
/// wholly within the lower one. Trusted: the lower buffer keeps its length;
/// each of its pixels that the upper buffer covers is what `Pixel::blend`
/// makes of it and of the pixel that covers it (unchanged under alpha 0,
/// replaced under alpha 255, `blended` otherwise); every other byte is
/// unchanged.
#[verifier::external_body]
fn overlay_rgba(
    bottom: Vec<u8>,
    bottom_width: u32,
    bottom_height: u32,
    top: &Vec<u8>,
    top_width: u32,
    top_height: u32,
    left: u32,
    upper: u32,
) -> (out: Vec<u8>)
    requires
        bottom.len() == 4 * bottom_width * bottom_height,
        top.len() == 4 * top_width * top_height,
        left + top_width <= bottom_width,
        upper + top_height <= bottom_height,
    ensures
        out@.len() == bottom@.len(),
        forall|i: int|
            0 <= i < out@.len() && !byte_covered(
                bottom_width as nat,
                top_width as nat,
                top_height as nat,
                left as nat,
                upper as nat,
                i,
            ) ==> #[trigger] out@[i] == bottom@[i],
        forall|i: int|
            0 <= i < out@.len() && byte_covered(
                bottom_width as nat,
                top_width as nat,
                top_height as nat,
                left as nat,
                upper as nat,
                i,
            ) ==> #[trigger] out@[i] == ({
                let under = pixel_of_byte(bottom@, bottom_width as nat, i);
                let over = pixel_over_byte(
                    bottom_width as nat,
                    top@,
                    top_width as nat,
                    left as nat,
                    upper as nat,
                    i,
                );
                if over[3] == 0 {
                    under[i % 4]
                } else if over[3] == 255 {
                    over[i % 4]
                } else {
                    blended(under, over)[i % 4]
                }
            }),
{
    let mut under = image::RgbaImage::from_raw(bottom_width, bottom_height, bottom).unwrap();
    let over = image::ImageBuffer::<image::Rgba<u8>, &[u8]>::from_raw(
        top_width,
        top_height,
        top.as_slice(),
    ).unwrap();
    image::imageops::overlay(&mut under, &over, left.into(), upper.into());
    under.into_raw()
}

/// The scaled source as pixels.
pub struct RasterImage {
    place: Placement,
    pixels: Vec<u8>,
}

impl RasterImage {
    /// Where the raster goes on the canvas.
    pub closed spec fn place(&self) -> Placement {
        self.place
    }

    /// The bytes of the raster.
    pub closed spec fn pixels(&self) -> Seq<u8> {
        self.pixels@
    }

    /// A raster holds four bytes for each pixel of its placement.
    #[verifier::type_invariant]
    pub open spec fn wf(&self) -> bool {
        &&& self.place().wf()
        &&& self.pixels().len() == 4 * self.place().spec_target_width()
            * self.place().spec_target_height()
    }

    /// Takes a raw buffer as the raster of a placement. A buffer with fewer
    /// than four bytes for each pixel is refused; of a longer one the raster
    /// keeps what its pixels take.
    pub fn from_raw(place: Placement, data: Vec<u8>) -> (r: Result<RasterImage, PipelineError>)
        ensures
            r is Ok <==> data.len() >= 4 * place.spec_target_width() * place.spec_target_height(),
            r matches Ok(image) ==> {
                &&& image.wf()
                &&& image.place() == place
                &&& image.pixels() == data@.take(
                    (4 * place.spec_target_width() * place.spec_target_height()) as int,
                )
            },
            r matches Err(e) ==> e == PipelineError::PixelConversion,
    {
        let width = place.target_width();
        let height = place.target_height();
        assert(width * height <= 65536) by (nonlinear_arith)
            requires
                width <= 256,
                height <= 256,
        ;
        let needed: usize = CHANNELS * (width as usize * height as usize);
        assert(needed == 4 * place.spec_target_width() * place.spec_target_height())
            by (nonlinear_arith)
            requires
                needed == 4 * (width * height),
                width == place.spec_target_width(),
                height == place.spec_target_height(),
        ;
        if data.len() < needed {
            return Err(PipelineError::PixelConversion);
        }
        let mut pixels = data;
        pixels.truncate(needed);
        Ok(RasterImage { place, pixels })
    }

    /// The placement of the raster.
    pub fn placement(&self) -> (place: Placement)
        ensures
            place == self.place(),
            self.wf(),
    {
        proof {
            use_type_invariant(self);
        }
        self.place
    }

    /// The bytes of the raster.
    pub fn bytes(&self) -> (data: &Vec<u8>)
        ensures
            data@ == self.pixels(),
            self.wf(),
    {
        proof {
            use_type_invariant(self);
        }
        &self.pixels
    }
}

/// The bytes of a canvas without any content.
pub open spec fn transparent_pixels() -> Seq<u8> {
    Seq::new(CANVAS_BYTES as nat, |i: int| 0u8)
}

/// The bytes of the canvas that holds the raster `source` at `place` and is
/// transparent elsewhere.
pub open spec fn composed(place: Placement, source: Seq<u8>) -> Seq<u8> {
    overlaid(
        transparent_pixels(),
        CANVAS_EDGE as nat,
        source,
        place.spec_target_width(),
        place.spec_target_height(),
        place.spec_x_offset(),
        place.spec_y_offset(),
    )
}

/// The index of the first byte of the pixel in column `x` and row `y` of a
/// canvas.
pub open spec fn canvas_index(x: int, y: int) -> int {
    4 * (y * CANVAS_EDGE + x)
}

/// The square raster that every icon is normalized into.
pub struct Canvas {
    pixels: Vec<u8>,
}

impl View for Canvas {
    type V = Seq<u8>;

    closed spec fn view(&self) -> Seq<u8> {
        self.pixels@
    }
}

impl Canvas {
    /// A canvas has four bytes for each pixel of the square.
    #[verifier::type_invariant]
    pub open spec fn wf(&self) -> bool {
        self@.len() == CANVAS_BYTES
    }

    /// A canvas without any content.
    pub fn transparent() -> (canvas: Canvas)
        ensures
            canvas.wf(),
            canvas@ == transparent_pixels(),
    {
        let pixels: Vec<u8> = vec![0u8; CANVAS_BYTES];
        assert(pixels@ =~= transparent_pixels());
        Canvas { pixels }
    }

    /// Lays a raster on a transparent canvas, where its placement says.
    pub fn compose(image: &RasterImage) -> (canvas: Canvas)
        ensures
            canvas.wf(),
            canvas@ == composed(image.place(), image.pixels()),
    {
        let place = image.placement();
        let blank = Canvas::transparent();
        let pixels = overlay_rgba(
            blank.pixels,
            CANVAS_EDGE,
            CANVAS_EDGE,
            image.bytes(),
            place.target_width(),
            place.target_height(),
            place.x_offset(),
            place.y_offset(),
        );
        assert(pixels@ =~= composed(image.place(), image.pixels()));
        Canvas { pixels }
    }

    /// Takes a raw buffer of the given width and height as a canvas. A raster
    /// wider or higher than the canvas is more than an icon image holds, and
    /// is refused as an encode error; any other that is not the canvas's own
    /// width and height with four bytes for each pixel is refused as a pixel
    /// conversion error.
    pub fn from_raw(width: u32, height: u32, data: Vec<u8>) -> (r: Result<Canvas, PipelineError>)
        ensures
            r is Ok <==> width == CANVAS_EDGE && height == CANVAS_EDGE && data.len()
                == CANVAS_BYTES,
            r matches Ok(canvas) ==> canvas.wf() && canvas@ == data@,
            r matches Err(e) ==> e == (if width > CANVAS_EDGE || height > CANVAS_EDGE {
                PipelineError::Encode
            } else {
                PipelineError::PixelConversion
            }),
    {
        if width > CANVAS_EDGE || height > CANVAS_EDGE {
            Err(PipelineError::Encode)
        } else if width == CANVAS_EDGE && height == CANVAS_EDGE && data.len() == CANVAS_BYTES {
            Ok(Canvas { pixels: data })
        } else {
            Err(PipelineError::PixelConversion)
        }
    }

    /// The bytes of the canvas.
    pub fn bytes(&self) -> (data: &Vec<u8>)
        ensures
            data@ == self@,
            self.wf(),
    {
        proof {
            use_type_invariant(self);
        }
        &self.pixels
    }
}

/// A pixel of the canvas that the placed raster does not cover stays fully
/// transparent.
pub proof fn lemma_padding_is_transparent(place: Placement, source: Seq<u8>, x: int, y: int, c: int)
    requires
        place.wf(),
        0 <= x < CANVAS_EDGE,
        0 <= y < CANVAS_EDGE,
        0 <= c < 4,
        !covers(
            place.spec_x_offset(),
            place.spec_y_offset(),
            place.spec_target_width(),
            place.spec_target_height(),
            x,
            y,
        ),
    ensures
        composed(place, source)[canvas_index(x, y) + c] == 0,
{
}

/// Under a pixel of the placed raster the canvas is that pixel where it is
/// opaque, and stays fully transparent where it is fully transparent.
pub proof fn lemma_content_is_laid_over(place: Placement, source: Seq<u8>, x: int, y: int, c: int)
    requires
        place.wf(),
        0 <= c < 4,
        covers(
            place.spec_x_offset(),
            place.spec_y_offset(),
            place.spec_target_width(),
            place.spec_target_height(),
            x,
            y,
        ),
    ensures
        ({
            let over = pixel_at(
                source,
                place.spec_target_width(),
                x - place.spec_x_offset(),
                y - place.spec_y_offset(),
            );
            &&& over[3] == 255 ==> composed(place, source)[canvas_index(x, y) + c] == over[c]
            &&& over[3] == 0 ==> composed(place, source)[canvas_index(x, y) + c] == 0
        }),
{
}

} // verus!
