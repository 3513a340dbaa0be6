use svgico::icon::pack;
use svgico::plan::plan_outputs;
use svgico::raster::{Canvas, CANVAS_BYTES};
use svgico::rasterize::rasterize;

fn patterned_canvas() -> Canvas {
    let mut data = vec![0u8; CANVAS_BYTES];
    for y in 0..256usize {
        for x in 0..256usize {
            let at = 4 * (y * 256 + x);
            data[at] = x as u8;
            data[at + 1] = y as u8;
            data[at + 2] = (x ^ y) as u8;
            data[at + 3] = if (x + y) % 3 == 0 { 0 } else if (x + y) % 3 == 1 { 255 } else { 90 };
        }
    }
    Canvas::from_raw(256, 256, data).unwrap()
}

fn read_back(file: &[u8]) -> ico::IconDir {
    ico::IconDir::read(std::io::Cursor::new(file)).unwrap()
}

#[test]
fn container_declares_one_icon() {
    let file = pack(&Canvas::transparent()).unwrap();
    assert_eq!(&file[0..6], &[0, 0, 1, 0, 1, 0]);
    // A side of 256 pixels is written as 0.
    assert_eq!(file[6], 0);
    assert_eq!(file[7], 0);
    assert_eq!(file[9], 0);
    let size = u32::from_le_bytes([file[14], file[15], file[16], file[17]]) as usize;
    let offset = u32::from_le_bytes([file[18], file[19], file[20], file[21]]) as usize;
    assert_eq!(offset, 22);
    assert_eq!(file.len(), 22 + size);
    // The image of a canvas is stored as PNG, without colour table and planes.
    assert_eq!(&file[22..26], &[0x89, b'P', b'N', b'G']);
    assert_eq!(file[8], 0);
    assert_eq!(&file[10..12], &[0, 0]);
    // A transparent canvas has an alpha channel: thirty-two bits a pixel.
    assert_eq!(&file[12..14], &[32, 0]);
}

#[test]
fn opaque_canvas_takes_twenty_four_bits_a_pixel() {
    let data: Vec<u8> = (0..CANVAS_BYTES).map(|i| if i % 4 == 3 { 255 } else { 7 }).collect();
    let file = pack(&Canvas::from_raw(256, 256, data).unwrap()).unwrap();
    assert_eq!(&file[0..14], &[0, 0, 1, 0, 1, 0, 0, 0, 0, 0, 0, 0, 24, 0]);
    let mut data: Vec<u8> = vec![255u8; CANVAS_BYTES];
    data[CANVAS_BYTES - 1] = 254;
    let file = pack(&Canvas::from_raw(256, 256, data).unwrap()).unwrap();
    assert_eq!(&file[0..14], &[0, 0, 1, 0, 1, 0, 0, 0, 0, 0, 0, 0, 32, 0]);
}

#[test]
fn packed_canvas_reads_back_as_it_was() {
    let canvas = patterned_canvas();
    let file = pack(&canvas).unwrap();
    let dir = read_back(&file);
    assert_eq!(dir.resource_type(), ico::ResourceType::Icon);
    assert_eq!(dir.entries().len(), 1);
    let entry = &dir.entries()[0];
    assert_eq!((entry.width(), entry.height()), (256, 256));
    assert_eq!(entry.data(), &file[22..]);
    let image = entry.decode().unwrap();
    assert_eq!((image.width(), image.height()), (256, 256));
    assert_eq!(image.rgba_data(), canvas.bytes().as_slice());
}

#[test]
fn opaque_canvas_reads_back_as_it_was() {
    let data: Vec<u8> = (0..CANVAS_BYTES).map(|i| if i % 4 == 3 { 255 } else { (i % 199) as u8 }).collect();
    let canvas = Canvas::from_raw(256, 256, data).unwrap();
    let dir = read_back(&pack(&canvas).unwrap());
    let image = dir.entries()[0].decode().unwrap();
    assert_eq!(image.rgba_data(), canvas.bytes().as_slice());
}

#[test]
fn packing_twice_gives_the_same_container() {
    let canvas = patterned_canvas();
    assert_eq!(pack(&canvas).unwrap(), pack(&canvas).unwrap());
}

#[test]
fn two_documents_give_two_rasters_and_two_icons() {
    let a = b"<svg xmlns=\"http://www.w3.org/2000/svg\" width=\"100\" height=\"50\"><circle cx=\"50\" cy=\"25\" r=\"20\" fill=\"#cc0000\"/></svg>";
    let b = b"<svg xmlns=\"http://www.w3.org/2000/svg\" width=\"10\" height=\"10\"><rect width=\"10\" height=\"10\" fill=\"#00cc00\" fill-opacity=\"0.5\"/></svg>";
    let found = [("a", Some("svg"), &a[..]), ("b", Some("SVG"), &b[..]), ("notes", Some("txt"), &b""[..]), ("sub", None, &b""[..])];
    let mut rasters = Vec::new();
    let mut icons = Vec::new();
    for (stem, extension, data) in found {
        if let Some(outputs) = plan_outputs(stem, extension) {
            let canvas = rasterize(data).unwrap();
            assert_eq!(canvas.bytes().len(), 256 * 256 * 4);
            let file = pack(&canvas).unwrap();
            let dir = read_back(&file);
            assert_eq!(dir.entries().len(), 1);
            let image = dir.entries()[0].decode().unwrap();
            assert_eq!((image.width(), image.height()), (256, 256));
            assert_eq!(image.rgba_data(), canvas.bytes().as_slice());
            rasters.push(outputs.raster_name);
            icons.push(outputs.icon_name);
        }
    }
    assert_eq!(rasters, vec!["a.png", "b.png"]);
    assert_eq!(icons, vec!["a.ico", "b.ico"]);
}

#[test]
fn a_second_run_gives_what_the_first_gave() {
    let data = b"<svg xmlns=\"http://www.w3.org/2000/svg\" width=\"64\" height=\"48\"><path d=\"M0 0 L64 48 L0 48 Z\" fill=\"#123456\"/></svg>";
    let first = pack(&rasterize(data).unwrap()).unwrap();
    let second = pack(&rasterize(data).unwrap()).unwrap();
    assert_eq!(first, second);
}
