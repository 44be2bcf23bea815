use favis::error::ErrorKind;
use favis::img::{decode, decode_raster, PixelBuffer, SourceKind, MIN_SOURCE_SIZE};

fn gradient(width: u32, height: u32) -> PixelBuffer {
    let mut data = Vec::new();
    for y in 0..height {
        for x in 0..width {
            data.push((x * 255 / width.max(1)) as u8);
            data.push((y * 255 / height.max(1)) as u8);
            data.push(((x + y) % 256) as u8);
            data.push(255);
        }
    }
    PixelBuffer::from_rgba(width, height, data).unwrap()
}

#[test]
fn from_rgba_wants_four_bytes_per_pixel() {
    let ok = PixelBuffer::from_rgba(2, 3, vec![7; 24]).unwrap();
    assert_eq!(ok.width(), 2);
    assert_eq!(ok.height(), 3);
    assert_eq!(ok.data(), &vec![7u8; 24]);
    assert!(PixelBuffer::from_rgba(2, 3, vec![7; 23]).is_none());
    assert!(PixelBuffer::from_rgba(2, 3, vec![7; 25]).is_none());
    assert!(PixelBuffer::from_rgba(0, 3, vec![7; 4]).is_none());
    let empty = PixelBuffer::from_rgba(0, 9, Vec::new()).unwrap();
    assert_eq!(empty.into_data(), Vec::<u8>::new());
}

#[test]
fn resizable_to_admits_positive_sizes() {
    let source = gradient(64, 64);
    assert!(source.resizable_to(1));
    assert!(source.resizable_to(16));
    assert!(source.resizable_to(512));
    assert!(!source.resizable_to(0));
    assert!(!source.resizable_to(16_777_217));
    assert!(!source.resizable_to(u32::MAX));
}

#[test]
fn resize_square_gives_exactly_the_size_asked_for() {
    let source = gradient(80, 64);
    for size in [1u32, 16, 32, 48, 180] {
        assert!(source.resizable_to(size));
        let out = source.resize_square(size);
        assert_eq!(out.width(), size);
        assert_eq!(out.height(), size);
        assert_eq!(out.data().len(), (4 * size * size) as usize);
    }
}

#[test]
fn resize_square_to_the_same_size_keeps_the_samples() {
    let source = gradient(64, 64);
    let out = source.resize_square(64);
    assert_eq!(out.data(), source.data());
}

#[test]
fn resize_square_keeps_a_flat_colour_opaque() {
    let flat = PixelBuffer::from_rgba(64, 64, [10u8, 200, 30, 255].repeat(64 * 64)).unwrap();
    let out = flat.resize_square(16);
    for pixel in out.data().chunks(4) {
        assert_eq!(pixel[3], 255);
        assert!(pixel[0] >= 9 && pixel[0] <= 11);
        assert!(pixel[1] >= 199 && pixel[1] <= 201);
        assert!(pixel[2] >= 29 && pixel[2] <= 31);
    }
}

#[test]
fn resize_square_twice_gives_identical_bytes() {
    let source = gradient(100, 70);
    for size in [16u32, 32, 192] {
        let first = source.resize_square(size);
        let second = source.resize_square(size);
        assert_eq!(first.data(), second.data());
    }
}

#[test]
fn encode_png_writes_a_png_file() {
    let source = gradient(64, 64);
    let file = source.encode_png().unwrap();
    assert_eq!(&file[..8], &[0x89, b'P', b'N', b'G', 0x0d, 0x0a, 0x1a, 0x0a]);
    assert_ne!(&file, source.data());
    let back = image::load_from_memory(&file).unwrap().into_rgba8();
    assert_eq!(back.width(), 64);
    assert_eq!(back.height(), 64);
    assert_eq!(&back.into_raw(), source.data());
}

#[test]
fn encode_png_fails_on_an_empty_image() {
    let empty = PixelBuffer::from_rgba(0, 0, Vec::new()).unwrap();
    let e = empty.encode_png().unwrap_err();
    assert_eq!(e.kind, ErrorKind::WriteError);
    assert_eq!(e.context, "Can't write to: Cannot encode PNG image");
}

#[test]
fn decode_raster_reads_back_what_was_encoded() {
    let source = gradient(64, 96);
    let file = source.encode_png().unwrap();
    let decoded = decode_raster(&file).unwrap();
    assert_eq!(decoded.width(), 64);
    assert_eq!(decoded.height(), 96);
    assert_eq!(decoded.data(), source.data());
}

#[test]
fn decode_raster_rejects_what_is_no_png() {
    for bytes in [&b""[..], &b"not an image"[..], &b"GIF89a\x01\x00\x01\x00"[..]] {
        let e = decode_raster(bytes).unwrap_err();
        assert_eq!(e.kind, ErrorKind::InvalidFormat);
        assert_eq!(e.context, "Oops! That file format isn't supported.");
        assert_eq!(
            e.suggestion.as_deref(),
            Some("Try an SVG (best option!) or a PNG with --raster-ok.")
        );
    }
}

#[test]
fn decode_raster_rejects_a_source_below_the_minimum() {
    assert_eq!(MIN_SOURCE_SIZE, 64);
    for (width, height) in [(63u32, 64u32), (64, 63), (16, 16), (63, 200)] {
        let file = gradient(width, height).encode_png().unwrap();
        let e = decode_raster(&file).unwrap_err();
        assert_eq!(e.kind, ErrorKind::ImageTooSmall);
        assert_eq!(e.context, "Oops! Image is too small - needs to be at least 64x64 pixels");
    }
    let file = gradient(64, 64).encode_png().unwrap();
    assert!(decode_raster(&file).is_ok());
}

#[test]
fn decode_tells_raster_from_vector() {
    let png = gradient(64, 64).encode_png().unwrap();
    assert_eq!(decode(&png, SourceKind::Raster).unwrap().width(), 64);
    assert_eq!(decode(&png, SourceKind::Vector).unwrap_err().kind, ErrorKind::InvalidVectorSource);
    let svg = b"<svg xmlns=\"http://www.w3.org/2000/svg\" width=\"20\" height=\"10\"></svg>";
    let drawn = decode(svg, SourceKind::Vector).unwrap();
    assert_eq!((drawn.width(), drawn.height()), (20, 10));
    assert_eq!(decode(svg, SourceKind::Raster).unwrap_err().kind, ErrorKind::InvalidFormat);
}

#[test]
fn decode_rejects_an_empty_vector_source() {
    let e = decode(b"", SourceKind::Vector).unwrap_err();
    assert_eq!(e.kind, ErrorKind::InvalidVectorSource);
    assert_eq!(e.context, "SVG trouble: SVG file is empty");
}
