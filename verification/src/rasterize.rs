//! From the bytes of a vector document to a canvas.
//!
//! The document is parsed by `usvg` and painted by `resvg` into a `tiny_skia`
//! pixmap of exactly the size that the placement gives it; this module decides
//! that size, checks what comes back and lays it on the canvas.

use crate::error::PipelineError;
use crate::fit::{fit, Axis, Placement, CANVAS_EDGE};
use crate::length::{is_positive_finite, steps_of_bits, Length};
use crate::raster::{composed, Canvas, RasterImage};
use usvg::TreeParsing;
use vstd::prelude::*;

verus! {

/// A parsed document, `usvg::Tree`: carried from the parser to the painter
/// unopened.
#[verifier::external_type_specification]
#[verifier::external_body]
pub struct ExTree(usvg::Tree);

/// The painter's pixel buffer, `tiny_skia::Pixmap`.
#[verifier::external_type_specification]
#[verifier::external_body]
pub struct ExPixmap(resvg::tiny_skia::Pixmap);

/// The bytes that a pixmap holds, four for each pixel, row after row.
pub uninterp spec fn pixmap_bytes(pixmap: resvg::tiny_skia::Pixmap) -> Seq<u8>;

/// Why a document could not be parsed.
#[derive(Clone, Copy, Debug, PartialEq, Eq, Structural)]
pub enum ParseFailure {
    /// The bytes are no UTF-8 text.
    NotUtf8,
    /// The bytes begin as compressed data and do not decompress.
    MalformedGzip,
    /// The document has more elements than the parser takes.
    TooManyElements,
    /// The document has no valid size.
    InvalidSize,
    /// The text is no well-formed document.
    Malformed,
}

/// How the painter is told to scale the document.
#[derive(Clone, Copy, Debug, PartialEq, Eq, Structural)]
pub enum Fit {
    /// Scale until the document is this many pixels wide.
    Width(u32),
    /// Scale until the document is this many pixels high.
    Height(u32),
}

/// Why `usvg::Tree::from_data`, with the default options, refuses these
/// bytes, if it does. Whether it does, and why, the crate settles from the
/// bytes alone, before it looks at anything the document links to.
pub uninterp spec fn parse_failure(data: Seq<u8>) -> Option<ParseFailure>;

/// Calls `usvg::Tree::from_data` with the default options, and tells the
/// variants of `usvg::Error` apart. Trusted: it fails on the bytes, and for
/// the reason, that `parse_failure` names.
#[verifier::external_body]
fn parse_document(data: &[u8]) -> (r: Result<usvg::Tree, ParseFailure>)
    ensures
        r is Ok <==> parse_failure(data@) is None,
        r matches Err(failure) ==> parse_failure(data@) == Some(failure),
{
    match usvg::Tree::from_data(data, &usvg::Options::default()) {
        Ok(tree) => Ok(tree),
        Err(usvg::Error::NotAnUtf8Str) => Err(ParseFailure::NotUtf8),
        Err(usvg::Error::MalformedGZip) => Err(ParseFailure::MalformedGzip),
        Err(usvg::Error::ElementsLimitReached) => Err(ParseFailure::TooManyElements),
        Err(usvg::Error::InvalidSize) => Err(ParseFailure::InvalidSize),
        Err(usvg::Error::ParsingFailed(_)) => Err(ParseFailure::Malformed),
    }
}

/// The binary64 bit pattern of the width that a parsed document has.
pub uninterp spec fn tree_width_bits(tree: usvg::Tree) -> u64;

/// The binary64 bit pattern of the height that a parsed document has.
pub uninterp spec fn tree_height_bits(tree: usvg::Tree) -> u64;

/// Reads `usvg::Tree::size` and hands out the binary64 bit pattern of its
/// width. Trusted: it is the document's, and is that of a finite number
/// greater than zero, which is what `usvg::Size` guarantees of its sides.
#[verifier::external_body]
fn intrinsic_width_bits(tree: &usvg::Tree) -> (bits: u64)
    ensures
        bits == tree_width_bits(*tree),
        is_positive_finite(bits),
{
    tree.size.width().to_bits()
}

/// Reads `usvg::Tree::size` and hands out the binary64 bit pattern of its
/// height. Trusted: it is the document's, and is that of a finite number
/// greater than zero, which is what `usvg::Size` guarantees of its sides.
#[verifier::external_body]
fn intrinsic_height_bits(tree: &usvg::Tree) -> (bits: u64)
    ensures
        bits == tree_height_bits(*tree),
        is_positive_finite(bits),
{
    tree.size.height().to_bits()
}

/// Calls `tiny_skia::Pixmap::new`. Trusted: there is no pixmap without pixels;
/// up to the canvas's edge each way one is made; and a pixmap that is made
/// holds four zero bytes for each pixel.
#[verifier::external_body]
fn new_pixmap(width: u32, height: u32) -> (r: Option<resvg::tiny_skia::Pixmap>)
    ensures
        width == 0 || height == 0 ==> r is None,
        1 <= width <= CANVAS_EDGE && 1 <= height <= CANVAS_EDGE ==> r is Some,
        r matches Some(pixmap) ==> pixmap_bytes(pixmap) == Seq::new(
            (4 * width * height) as nat,
            |i: int| 0u8,
        ),
{
    resvg::tiny_skia::Pixmap::new(width, height)
}

/// Whether the painter is asked for an edge of at least one pixel.
pub open spec fn asks_for_pixels(fit: Fit) -> bool {
    match fit {
        Fit::Width(width) => width > 0,
        Fit::Height(height) => height > 0,
    }
}

/// Calls `resvg::render` with the identity transform. The painter works out
/// its own size from what it is told and from the document's size rounded to
/// whole units, so what it paints may be a pixel short of the pixmap along the
/// side that does not fill the edge; nothing here says what it paints.
/// Trusted: asked for an edge of at least
/// one pixel the painter does not give up; and whatever it paints, the pixmap
/// keeps its length.
#[verifier::external_body]
fn render_into(tree: &usvg::Tree, fit: Fit, pixmap: &mut resvg::tiny_skia::Pixmap) -> (done: bool)
    ensures
        asks_for_pixels(fit) ==> done,
        pixmap_bytes(*final(pixmap)).len() == pixmap_bytes(*old(pixmap)).len(),
{
    let fit_to = match fit {
        Fit::Width(width) => resvg::FitTo::Width(width),
        Fit::Height(height) => resvg::FitTo::Height(height),
    };
    resvg::render(tree, fit_to, resvg::tiny_skia::Transform::identity(), pixmap.as_mut()).is_some()
}

/// Calls `tiny_skia::Pixmap::data` and copies what it returns. Trusted: these
/// are the bytes that the pixmap holds.
#[verifier::external_body]
fn pixmap_data(pixmap: &resvg::tiny_skia::Pixmap) -> (data: Vec<u8>)
    ensures
        data@ == pixmap_bytes(*pixmap),
{
    pixmap.data().to_vec()
}

/// The error that a parse failure is reported as: a document without a valid
/// size has invalid geometry, every other failure is a parse error.
pub open spec fn error_of_failure(failure: ParseFailure) -> PipelineError {
    match failure {
        ParseFailure::InvalidSize => PipelineError::InvalidGeometry,
        _ => PipelineError::Parse,
    }
}

/// Reports a parse failure as an error.
pub fn report_failure(failure: ParseFailure) -> (error: PipelineError)
    ensures
        error == error_of_failure(failure),
{
    match failure {
        ParseFailure::InvalidSize => PipelineError::InvalidGeometry,
        _ => PipelineError::Parse,
    }
}

/// What the painter is told for a placement: to fill the canvas edge along
/// the limiting side.
pub open spec fn fit_of(place: Placement) -> Fit {
    match place.spec_limiting() {
        Axis::Width => Fit::Width(CANVAS_EDGE),
        Axis::Height => Fit::Height(CANVAS_EDGE),
    }
}

/// Chooses what the painter is told for a placement.
pub fn choose_fit(place: &Placement) -> (fit: Fit)
    ensures
        fit == fit_of(*place),
{
    match place.limiting() {
        Axis::Width => Fit::Width(CANVAS_EDGE),
        Axis::Height => Fit::Height(CANVAS_EDGE),
    }
}

/// Paints a parsed document into a buffer of exactly the placement's size. A
/// buffer that cannot be made, or a painter that gives up, would be a render
/// error; for a placement neither happens.
fn paint(tree: &usvg::Tree, place: &Placement) -> (r: Result<Vec<u8>, PipelineError>)
    ensures
        r is Ok,
        r matches Ok(pixels) ==> pixels.len() == 4 * place.spec_target_width()
            * place.spec_target_height(),
{
    let width = place.target_width();
    let height = place.target_height();
    let mut pixmap = match new_pixmap(width, height) {
        Some(pixmap) => pixmap,
        None => {
            return Err(PipelineError::Render);
        },
    };
    if !render_into(tree, choose_fit(place), &mut pixmap) {
        return Err(PipelineError::Render);
    }
    let pixels = pixmap_data(&pixmap);
    assert(pixels.len() == 4 * place.spec_target_width() * place.spec_target_height())
        by (nonlinear_arith)
        requires
            pixels.len() == (4 * width * height) as nat,
            width == place.spec_target_width(),
            height == place.spec_target_height(),
    ;
    Ok(pixels)
}

/// A parsed vector document.
pub struct Document {
    tree: usvg::Tree,
    width_bits: u64,
    height_bits: u64,
}

impl Document {
    /// The binary64 bit pattern of the document's intrinsic width.
    pub closed spec fn spec_width_bits(&self) -> u64 {
        tree_width_bits(self.tree)
    }

    /// The binary64 bit pattern of the document's intrinsic height.
    pub closed spec fn spec_height_bits(&self) -> u64 {
        tree_height_bits(self.tree)
    }

    /// A document keeps the sides of what was parsed, each a finite number
    /// greater than zero.
    #[verifier::type_invariant]
    pub closed spec fn wf(&self) -> bool {
        &&& self.width_bits == tree_width_bits(self.tree)
        &&& self.height_bits == tree_height_bits(self.tree)
        &&& is_positive_finite(self.width_bits)
        &&& is_positive_finite(self.height_bits)
    }

    /// Whether `canvas` holds some raster of the size that fits this
    /// document's width and height, centred over transparent padding.
    pub open spec fn is_canvas_of(&self, canvas: Seq<u8>) -> bool {
        exists|place: Placement, pixels: Seq<u8>|
            {
                &&& place.wf()
                &&& place.fits(
                    steps_of_bits(self.spec_width_bits()),
                    steps_of_bits(self.spec_height_bits()),
                )
                &&& pixels.len() == 4 * place.spec_target_width() * place.spec_target_height()
                &&& canvas == #[trigger] composed(place, pixels)
            }
    }

    /// Parses the bytes of a vector document. Bytes that the parser refuses
    /// give a parse error, or invalid geometry where the document has no valid
    /// size; all other bytes give a document.
    pub fn parse(data: &[u8]) -> (r: Result<Document, PipelineError>)
        ensures
            parse_failure(data@) matches Some(failure) ==> r matches Err(e) && e
                == error_of_failure(failure),
            parse_failure(data@) is None ==> r is Ok,
    {
        match parse_document(data) {
            Ok(tree) => {
                let width_bits = intrinsic_width_bits(&tree);
                let height_bits = intrinsic_height_bits(&tree);
                Ok(Document { tree, width_bits, height_bits })
            },
            Err(failure) => Err(report_failure(failure)),
        }
    }

    /// The binary64 bit pattern of the intrinsic width, a finite number
    /// greater than zero.
    pub fn width_bits(&self) -> (bits: u64)
        ensures
            bits == self.spec_width_bits(),
            is_positive_finite(bits),
    {
        proof {
            use_type_invariant(self);
        }
        self.width_bits
    }

    /// The binary64 bit pattern of the intrinsic height, a finite number
    /// greater than zero.
    pub fn height_bits(&self) -> (bits: u64)
        ensures
            bits == self.spec_height_bits(),
            is_positive_finite(bits),
    {
        proof {
            use_type_invariant(self);
        }
        self.height_bits
    }

    /// Where the document goes on the canvas.
    pub fn placement(&self) -> (place: Placement)
        ensures
            place.wf(),
            place.fits(
                steps_of_bits(self.spec_width_bits()),
                steps_of_bits(self.spec_height_bits()),
            ),
    {
        let width = Length::from_bits(self.width_bits()).unwrap();
        let height = Length::from_bits(self.height_bits()).unwrap();
        fit(&width, &height)
    }

    /// Scales the document to fit, paints it and centres it over transparent
    /// padding. The canvas always comes back: its raster has the size that
    /// fits the document's width and height. What the painter paints is not
    /// said.
    pub fn rasterize(&self) -> (r: Result<Canvas, PipelineError>)
        ensures
            r is Ok,
            r matches Ok(canvas) ==> canvas.wf() && self.is_canvas_of(canvas@),
    {
        let place = self.placement();
        let pixels = match paint(&self.tree, &place) {
            Ok(pixels) => pixels,
            Err(error) => {
                return Err(error);
            },
        };
        let image = match RasterImage::from_raw(place, pixels) {
            Ok(image) => image,
            Err(error) => {
                return Err(error);
            },
        };
        let canvas = Canvas::compose(&image);
        assert(canvas@ == composed(image.place(), image.pixels()));
        Ok(canvas)
    }
}

/// Whether `place` is where a source of some valid intrinsic size goes.
pub open spec fn fits_some_source(place: Placement) -> bool {
    exists|width_bits: u64, height_bits: u64|
        {
            &&& is_positive_finite(width_bits)
            &&& is_positive_finite(height_bits)
            &&& #[trigger] place.fits(steps_of_bits(width_bits), steps_of_bits(height_bits))
        }
}

/// Whether `canvas` holds some raster, scaled to fit a source of some valid
/// intrinsic size and centred, over transparent padding.
pub open spec fn is_rasterized(canvas: Seq<u8>) -> bool {
    exists|place: Placement, pixels: Seq<u8>|
        {
            &&& place.wf()
            &&& fits_some_source(place)
            &&& pixels.len() == 4 * place.spec_target_width() * place.spec_target_height()
            &&& canvas == #[trigger] composed(place, pixels)
        }
}

/// The canvas of a document holds a raster scaled to fit a valid size.
pub proof fn lemma_canvas_of_document_is_rasterized(document: Document, canvas: Seq<u8>)
    requires
        document.wf(),
        document.is_canvas_of(canvas),
    ensures
        is_rasterized(canvas),
{
    let (place, pixels) = choose|place: Placement, pixels: Seq<u8>|
        {
            &&& place.wf()
            &&& place.fits(
                steps_of_bits(document.spec_width_bits()),
                steps_of_bits(document.spec_height_bits()),
            )
            &&& pixels.len() == 4 * place.spec_target_width() * place.spec_target_height()
            &&& canvas == #[trigger] composed(place, pixels)
        };
    assert(fits_some_source(place));
}

/// Turns the bytes of a vector document into a canvas: parses them, scales the
/// document to fit, paints it and centres it over transparent padding. Bytes
/// that the parser refuses give a parse error, or invalid geometry where the
/// document has no valid size; all other bytes give a canvas.
pub fn rasterize(data: &[u8]) -> (r: Result<Canvas, PipelineError>)
    ensures
        parse_failure(data@) matches Some(failure) ==> r == Err::<Canvas, PipelineError>(
            error_of_failure(failure),
        ),
        parse_failure(data@) is None ==> r is Ok,
        r matches Ok(canvas) ==> canvas.wf() && is_rasterized(canvas@),
{
    let document = match Document::parse(data) {
        Ok(document) => document,
        Err(error) => {
            return Err(error);
        },
    };
    match document.rasterize() {
        Ok(canvas) => {
            proof {
                use_type_invariant(&document);
                lemma_canvas_of_document_is_rasterized(document, canvas@);
            }
            Ok(canvas)
        },
        Err(error) => Err(error),
    }
}

} // verus!
