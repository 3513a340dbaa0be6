//! From a canvas to an icon container.
//!
//! The container holds one image, the canvas, encoded by the `ico` crate. Its
//! file begins with six bytes that declare one icon, goes on with the sixteen
//! bytes of the image's directory record and ends with the encoded image.

use crate::error::PipelineError;
use crate::fit::CANVAS_EDGE;
use crate::raster::Canvas;
use vstd::prelude::*;

verus! {

/// One encoded image with its directory record, `ico::IconDirEntry`.
#[verifier::external_type_specification]
#[verifier::external_body]
pub struct ExIconDirEntry(ico::IconDirEntry);

/// The entries of one container, `ico::IconDir`.
#[verifier::external_type_specification]
#[verifier::external_body]
pub struct ExIconDir(ico::IconDir);

/// The error of the encoder and of the writer, `std::io::Error`.
#[verifier::external_type_specification]
#[verifier::external_body]
pub struct ExIoError(std::io::Error);

/// What one entry of an icon directory says of its image.
pub struct EntryView {
    /// Whether the image is an icon, not a cursor.
    pub icon: bool,
    /// The width of the image in pixels.
    pub width: u32,
    /// The height of the image in pixels.
    pub height: u32,
    /// The size of the colour table, or none.
    pub colors: u8,
    /// The colour planes.
    pub planes: u16,
    /// The bits that each pixel takes.
    pub bits: u16,
    /// The encoded image.
    pub payload: Seq<u8>,
}

/// The bytes that `ico::IconDirEntry::encode` makes of an RGBA8 image of the
/// given width and height. The crate computes them from these three alone.
pub uninterp spec fn encoded_image(width: u32, height: u32, rgba: Seq<u8>) -> Seq<u8>;

/// What a directory entry holds.
pub uninterp spec fn entry_view(entry: ico::IconDirEntry) -> EntryView;

/// What the entries of a directory hold, in their order.
pub uninterp spec fn dir_view(dir: ico::IconDir) -> Seq<EntryView>;

/// Whether a directory was made for icons, not for cursors.
pub uninterp spec fn dir_holds_icons(dir: ico::IconDir) -> bool;

/// Whether some pixel of an RGBA8 image is not fully opaque.
pub open spec fn has_alpha(rgba: Seq<u8>) -> bool {
    exists|i: int| 0 <= i < rgba.len() && i % 4 == 3 && #[trigger] rgba[i] != 255
}

/// The images with more pixels than this are stored as PNG, whatever they
/// show.
pub const LARGEST_PLAIN_IMAGE: u32 = 4096;

/// The bits that each pixel of an image stored as PNG takes: thirty-two with
/// an alpha channel, twenty-four without.
pub open spec fn png_bits(rgba: Seq<u8>) -> u16 {
    if has_alpha(rgba) {
        32
    } else {
        24
    }
}

/// The two bytes of a number below `2^16`, the lower first.
pub open spec fn le16(n: nat) -> Seq<u8> {
    seq![(n % 256) as u8, (n / 256 % 256) as u8]
}

/// The four bytes of a number below `2^32`, the lowest first.
pub open spec fn le32(n: nat) -> Seq<u8> {
    seq![
        (n % 256) as u8,
        (n / 256 % 256) as u8,
        (n / 65536 % 256) as u8,
        (n / 16777216 % 256) as u8,
    ]
}

/// The byte that a directory record has for a side: the side itself up to
/// 255 pixels, and 0 for more.
pub open spec fn side_byte(side: u32) -> u8 {
    if side > 255 {
        0
    } else {
        side as u8
    }
}

/// The bytes before the encoded image: six of the header, sixteen of the one
/// directory record.
pub const PREAMBLE: usize = 22;

/// The longest encoded image that a container with one image can hold: the
/// place where the image ends must still be a number below `2^32`.
pub const LONGEST_IMAGE: usize = 0xffff_ffe9;

/// The file of an icon container with one image. Its header declares icons
/// and counts one of them. The record of that one gives its sides, its colour
/// table, planes and bits, the length of the encoded image and where it
/// begins, which is right behind the record. The encoded image ends the file.
pub open spec fn icon_file(entry: EntryView) -> Seq<u8> {
    seq![0u8, 0u8, 1u8, 0u8, 1u8, 0u8] + seq![
        side_byte(entry.width),
        side_byte(entry.height),
        entry.colors,
        0u8,
    ] + le16(entry.planes as nat) + le16(entry.bits as nat) + le32(entry.payload.len()) + le32(
        PREAMBLE as nat,
    ) + entry.payload
}

/// What the one entry of a canvas's container holds: an icon of the canvas's
/// size, stored as PNG.
pub open spec fn canvas_entry(pixels: Seq<u8>) -> EntryView {
    EntryView {
        icon: true,
        width: CANVAS_EDGE,
        height: CANVAS_EDGE,
        colors: 0,
        planes: 0,
        bits: png_bits(pixels),
        payload: encoded_image(CANVAS_EDGE, CANVAS_EDGE, pixels),
    }
}

/// Calls `ico::IconDirEntry::encode` on the image that
/// `ico::IconImage::from_rgba_data` makes of the arguments. Trusted: an entry
/// is made; it holds an icon of the given width and height and the bytes
/// named `encoded_image`; and an image with more pixels than the largest plain
/// one is stored as PNG, without colour table and planes, at the bits that its
/// alpha calls for.
#[verifier::external_body]
fn encode_entry(width: u32, height: u32, rgba: Vec<u8>) -> (r: Result<
    ico::IconDirEntry,
    std::io::Error,
>)
    requires
        1 <= width <= 256,
        1 <= height <= 256,
        rgba.len() == 4 * width * height,
    ensures
        r is Ok,
        r matches Ok(entry) ==> entry_view(entry).icon,
        r matches Ok(entry) ==> entry_view(entry).width == width && entry_view(entry).height
            == height,
        r matches Ok(entry) ==> entry_view(entry).payload == encoded_image(width, height, rgba@),
        r matches Ok(entry) ==> (width * height > LARGEST_PLAIN_IMAGE ==> entry_view(entry).colors
            == 0 && entry_view(entry).planes == 0 && entry_view(entry).bits == png_bits(rgba@)),
{
    ico::IconDirEntry::encode(&ico::IconImage::from_rgba_data(width, height, rgba))
}

/// Calls `ico::IconDirEntry::data` and takes its length. Trusted: it is the
/// length of the encoded image that the entry holds.
#[verifier::external_body]
fn payload_len(entry: &ico::IconDirEntry) -> (len: usize)
    ensures
        len == entry_view(*entry).payload.len(),
{
    entry.data().len()
}

/// Calls `ico::IconDir::new` for icons. Trusted: the directory is for icons
/// and has no entries.
#[verifier::external_body]
fn new_icon_dir() -> (dir: ico::IconDir)
    ensures
        dir_holds_icons(dir),
        dir_view(dir) == Seq::<EntryView>::empty(),
{
    ico::IconDir::new(ico::ResourceType::Icon)
}

/// Calls `ico::IconDir::add_entry`. Trusted: the entry comes last in the
/// directory, which is for what it was for.
#[verifier::external_body]
fn add_entry(dir: &mut ico::IconDir, entry: ico::IconDirEntry)
    requires
        dir_holds_icons(*old(dir)) == entry_view(entry).icon,
    ensures
        dir_holds_icons(*final(dir)) == dir_holds_icons(*old(dir)),
        dir_view(*final(dir)) == dir_view(*old(dir)).push(entry_view(entry)),
{
    dir.add_entry(entry)
}

/// Calls `ico::IconDir::write` on a directory of icons with one entry, whose
/// image is no longer than a container holds, into memory. Trusted: the file
/// is written, and is the container of that one entry.
#[verifier::external_body]
fn write_dir(dir: &ico::IconDir) -> (r: Result<Vec<u8>, std::io::Error>)
    requires
        dir_holds_icons(*dir),
        dir_view(*dir).len() == 1,
        dir_view(*dir)[0].payload.len() <= LONGEST_IMAGE,
    ensures
        r is Ok,
        r matches Ok(file) ==> file@ == icon_file(dir_view(*dir)[0]),
{
    let mut file = Vec::new();
    dir.write(&mut file)?;
    Ok(file)
}

/// Wraps a canvas as an icon container with exactly one image. Encoding a
/// canvas and writing its container to memory do not fail, so the container
/// comes back unless the encoded image is longer than a container holds, which
/// is an encode error. A failure of the encoder would be an encode error too,
/// one of the writer an input-output error.
pub fn pack(canvas: &Canvas) -> (r: Result<Vec<u8>, PipelineError>)
    ensures
        r is Ok <==> encoded_image(CANVAS_EDGE, CANVAS_EDGE, canvas@).len() <= LONGEST_IMAGE,
        r matches Ok(file) ==> file@ == icon_file(canvas_entry(canvas@)),
        r matches Err(e) ==> e == PipelineError::Encode,
{
    let rgba = canvas.bytes().clone();
    assert(rgba@ =~= canvas@);
    let entry = match encode_entry(CANVAS_EDGE, CANVAS_EDGE, rgba) {
        Ok(entry) => entry,
        Err(_) => {
            return Err(PipelineError::Encode);
        },
    };
    if payload_len(&entry) > LONGEST_IMAGE {
        return Err(PipelineError::Encode);
    }
    let mut dir = new_icon_dir();
    add_entry(&mut dir, entry);
    match write_dir(&dir) {
        Ok(file) => {
            assert(file@ =~= icon_file(canvas_entry(canvas@)));
            Ok(file)
        },
        Err(_) => Err(PipelineError::Io),
    }
}

/// The container of a canvas declares one icon of 256 by 256 pixels, written
/// as 0 by 0, whose image begins right behind the record and ends the file.
pub proof fn lemma_container_layout(pixels: Seq<u8>)
    ensures
        ({
            let file = icon_file(canvas_entry(pixels));
            let image = encoded_image(CANVAS_EDGE, CANVAS_EDGE, pixels);
            &&& file.len() == PREAMBLE + image.len()
            &&& file.subrange(0, 6) == seq![0u8, 0u8, 1u8, 0u8, 1u8, 0u8]
            &&& file[6] == 0 && file[7] == 0
            &&& file.subrange(18, 22) == le32(PREAMBLE as nat)
            &&& file.subrange(14, 18) == le32(image.len())
            &&& file.subrange(PREAMBLE as int, file.len() as int) == image
        }),
{
    let file = icon_file(canvas_entry(pixels));
    let image = encoded_image(CANVAS_EDGE, CANVAS_EDGE, pixels);
    assert(file.subrange(0, 6) =~= seq![0u8, 0u8, 1u8, 0u8, 1u8, 0u8]);
    assert(file.subrange(18, 22) =~= le32(PREAMBLE as nat));
    assert(file.subrange(14, 18) =~= le32(image.len()));
    assert(file.subrange(PREAMBLE as int, file.len() as int) =~= image);
}

} // verus!
