use image::Pixel;
use svgico::error::PipelineError;
use svgico::fit::{fit_bits, Placement};
use svgico::raster::{Canvas, RasterImage, CANVAS_BYTES, CHANNELS};

fn place(width: f64, height: f64) -> Placement {
    fit_bits(width.to_bits(), height.to_bits()).unwrap()
}

fn pixel(canvas: &Canvas, x: usize, y: usize) -> [u8; 4] {
    let at = 4 * (y * 256 + x);
    let bytes = canvas.bytes();
    [bytes[at], bytes[at + 1], bytes[at + 2], bytes[at + 3]]
}

fn filled(place: &Placement, rgba: [u8; 4]) -> Vec<u8> {
    let count = (place.target_width() * place.target_height()) as usize;
    let mut data = Vec::with_capacity(4 * count);
    for _ in 0..count {
        data.extend_from_slice(&rgba);
    }
    data
}

#[test]
fn canvas_has_four_bytes_for_each_pixel() {
    assert_eq!(CHANNELS, 4);
    assert_eq!(CANVAS_BYTES, 256 * 256 * 4);
}

#[test]
fn transparent_canvas_is_all_zero() {
    let canvas = Canvas::transparent();
    assert_eq!(canvas.bytes().len(), CANVAS_BYTES);
    assert!(canvas.bytes().iter().all(|b| *b == 0));
}

#[test]
fn short_buffer_is_a_pixel_conversion_error() {
    let p = place(100.0, 50.0);
    let needed = 4 * 256 * 128;
    assert_eq!(RasterImage::from_raw(p, vec![0u8; needed - 1]).err(), Some(PipelineError::PixelConversion));
    assert_eq!(RasterImage::from_raw(p, Vec::new()).err(), Some(PipelineError::PixelConversion));
}

#[test]
fn exact_buffer_is_taken_as_it_is() {
    let p = place(100.0, 50.0);
    let data: Vec<u8> = (0..4 * 256 * 128).map(|i| (i % 251) as u8).collect();
    let image = RasterImage::from_raw(p, data.clone()).unwrap();
    assert_eq!(image.bytes(), &data);
    assert_eq!(image.placement().target_height(), 128);
}

#[test]
fn longer_buffer_is_cut_to_its_pixels() {
    let p = place(1024.0, 1.0);
    let data: Vec<u8> = (0..4 * 256 + 7).map(|i| (i % 251) as u8).collect();
    let image = RasterImage::from_raw(p, data.clone()).unwrap();
    assert_eq!(image.bytes().as_slice(), &data[..4 * 256]);
}

#[test]
fn opaque_raster_is_copied_and_padding_stays_transparent() {
    let p = place(100.0, 50.0);
    let red = [255, 0, 0, 255];
    let image = RasterImage::from_raw(p, filled(&p, red)).unwrap();
    let canvas = Canvas::compose(&image);
    for y in 0..256 {
        for x in 0..256 {
            let expected = if (64..192).contains(&y) { red } else { [0, 0, 0, 0] };
            assert_eq!(pixel(&canvas, x, y), expected, "at {} {}", x, y);
        }
    }
}

#[test]
fn tall_raster_is_centred_between_columns() {
    let p = place(1.0, 3.0);
    let blue = [0, 0, 255, 255];
    let image = RasterImage::from_raw(p, filled(&p, blue)).unwrap();
    let canvas = Canvas::compose(&image);
    for y in [0usize, 100, 255] {
        assert_eq!(pixel(&canvas, 84, y), [0, 0, 0, 0]);
        assert_eq!(pixel(&canvas, 85, y), blue);
        assert_eq!(pixel(&canvas, 170, y), blue);
        assert_eq!(pixel(&canvas, 171, y), [0, 0, 0, 0]);
    }
}

#[test]
fn each_pixel_lands_at_its_offset() {
    let p = place(256.0, 2.0);
    let mut data = vec![0u8; 4 * 256 * 2];
    for x in 0..256usize {
        data[4 * x..4 * x + 4].copy_from_slice(&[x as u8, 1, 2, 255]);
        data[4 * (256 + x)..4 * (256 + x) + 4].copy_from_slice(&[x as u8, 3, 4, 255]);
    }
    let canvas = Canvas::compose(&RasterImage::from_raw(p, data).unwrap());
    assert_eq!(p.y_offset(), 127);
    for x in 0..256usize {
        assert_eq!(pixel(&canvas, x, 126), [0, 0, 0, 0]);
        assert_eq!(pixel(&canvas, x, 127), [x as u8, 1, 2, 255]);
        assert_eq!(pixel(&canvas, x, 128), [x as u8, 3, 4, 255]);
        assert_eq!(pixel(&canvas, x, 129), [0, 0, 0, 0]);
    }
}

#[test]
fn fully_transparent_pixel_leaves_the_canvas_transparent() {
    let p = place(10.0, 10.0);
    let image = RasterImage::from_raw(p, filled(&p, [9, 8, 7, 0])).unwrap();
    let canvas = Canvas::compose(&image);
    assert!(canvas.bytes().iter().all(|b| *b == 0));
}

#[test]
fn translucent_pixel_is_blended_over_transparency() {
    let p = place(10.0, 10.0);
    let over = [200, 100, 50, 128];
    let image = RasterImage::from_raw(p, filled(&p, over)).unwrap();
    let canvas = Canvas::compose(&image);
    let mut expected = image::Rgba([0u8, 0, 0, 0]);
    expected.blend(&image::Rgba(over));
    assert_ne!(expected.0, [0, 0, 0, 0]);
    assert_eq!(pixel(&canvas, 0, 0), expected.0);
    assert_eq!(pixel(&canvas, 255, 255), expected.0);
}

#[test]
fn canvas_is_taken_from_a_buffer_of_its_own_size_only() {
    let data: Vec<u8> = (0..CANVAS_BYTES).map(|i| (i % 253) as u8).collect();
    let canvas = Canvas::from_raw(256, 256, data.clone()).unwrap();
    assert_eq!(canvas.bytes(), &data);
    assert_eq!(Canvas::from_raw(256, 255, data.clone()).err(), Some(PipelineError::PixelConversion));
    assert_eq!(Canvas::from_raw(100, 100, vec![0u8; 4 * 100 * 100]).err(), Some(PipelineError::PixelConversion));
    assert_eq!(Canvas::from_raw(256, 256, vec![0u8; CANVAS_BYTES - 4]).err(), Some(PipelineError::PixelConversion));
    assert_eq!(Canvas::from_raw(256, 256, vec![0u8; CANVAS_BYTES + 4]).err(), Some(PipelineError::PixelConversion));
    assert_eq!(Canvas::from_raw(0, 0, Vec::new()).err(), Some(PipelineError::PixelConversion));
}

#[test]
fn raster_larger_than_the_canvas_is_an_encode_error() {
    assert_eq!(Canvas::from_raw(300, 300, vec![0u8; 4 * 300 * 300]).err(), Some(PipelineError::Encode));
    assert_eq!(Canvas::from_raw(257, 256, vec![0u8; 4 * 257 * 256]).err(), Some(PipelineError::Encode));
    assert_eq!(Canvas::from_raw(256, 257, vec![0u8; 4 * 256 * 257]).err(), Some(PipelineError::Encode));
    let data: Vec<u8> = vec![0u8; CANVAS_BYTES];
    assert_eq!(Canvas::from_raw(128, 512, data.clone()).err(), Some(PipelineError::Encode));
    assert_eq!(Canvas::from_raw(u32::MAX, 1, data).err(), Some(PipelineError::Encode));
}
