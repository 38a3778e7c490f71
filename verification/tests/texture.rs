use vk_rs::define::{PNG_COLOR_RGB, PNG_COLOR_RGBA};
use vk_rs::texture::{
    img_mem_size, load_texture, read_img, rgb2rgba, rgba_texture, slice_size, texture_from_image, OutputInfo,
    Texture, TextureError,
};

fn encode(width: u32, height: u32, color: png::ColorType, pixels: &[u8]) -> Vec<u8> {
    encode_samples(width, height, color, png::BitDepth::Eight, pixels)
}

fn encode_samples(
    width: u32,
    height: u32,
    color: png::ColorType,
    depth: png::BitDepth,
    pixels: &[u8],
) -> Vec<u8> {
    let mut bytes: Vec<u8> = Vec::new();
    {
        let mut encoder = png::Encoder::new(&mut bytes, width, height);
        encoder.set_color(color);
        encoder.set_depth(depth);
        let mut writer = encoder.write_header().unwrap();
        writer.write_image_data(pixels).unwrap();
    }
    bytes
}

#[test]
fn an_image_is_read_back() {
    let pixels: Vec<u8> = (0..18).collect();
    let bytes = encode(3, 2, png::ColorType::Rgb, &pixels);
    let (read, info) = read_img(&bytes).unwrap();
    assert_eq!(read, pixels);
    let expected = OutputInfo { width: 3, height: 2, color_type: PNG_COLOR_RGB, bit_depth: 8, line_size: 9 };
    assert_eq!(info, expected);
}

#[test]
fn a_texture_has_an_opaque_fourth_channel() {
    let pixels: Vec<u8> = vec![10, 20, 30, 40, 50, 60];
    let bytes = encode(2, 1, png::ColorType::Rgb, &pixels);
    let texture = load_texture(&bytes).unwrap();
    assert_eq!(texture.pixels, vec![10, 20, 30, 255, 40, 50, 60, 255]);
    assert_eq!(texture.info.color_type, PNG_COLOR_RGBA);
    assert_eq!((texture.info.width, texture.info.height), (2, 1));
    // The description of the file is kept but for the colour type.
    assert_eq!((texture.info.bit_depth, texture.info.line_size), (8, 6));
}

#[test]
fn the_pixels_cover_the_image() {
    let bytes = encode(5, 7, png::ColorType::Rgb, &[1; 105]);
    let texture = load_texture(&bytes).unwrap();
    assert_eq!(texture.pixels.len(), 4 * 5 * 7);
}

#[test]
fn what_is_no_png_is_refused() {
    assert!(matches!(read_img(&[1, 2, 3]), Err(TextureError::Decode(_))));
    assert!(matches!(load_texture(&[]), Err(TextureError::Decode(_))));
    // The header is whole, the pixels are not.
    let bytes = encode(3, 2, png::ColorType::Rgb, &[0; 18]);
    let cut = &bytes[..bytes.len() - 30];
    assert!(matches!(load_texture(cut), Err(TextureError::Decode(_))));
}

#[test]
fn pixels_that_are_not_triples_are_refused() {
    let bytes = encode(2, 2, png::ColorType::Grayscale, &[1, 2, 3, 4]);
    assert!(read_img(&bytes).is_ok());
    assert!(matches!(load_texture(&bytes), Err(TextureError::NotRgb)));
}

#[test]
fn an_image_beyond_the_decoders_limits_is_refused() {
    // A header of 2^31-1 by 2^31-1 pixels with 16-bit samples in four channels.
    let mut bytes: Vec<u8> = vec![0x89, b'P', b'N', b'G', 0x0d, 0x0a, 0x1a, 0x0a];
    bytes.extend_from_slice(&[0, 0, 0, 13]);
    let mut header: Vec<u8> = b"IHDR".to_vec();
    header.extend_from_slice(&0x7fff_ffffu32.to_be_bytes());
    header.extend_from_slice(&0x7fff_ffffu32.to_be_bytes());
    header.extend_from_slice(&[16, 6, 0, 0, 0]);
    bytes.extend_from_slice(&header);
    bytes.extend_from_slice(&crc(&header).to_be_bytes());
    assert!(matches!(load_texture(&bytes), Err(TextureError::Decode(png::DecodingError::LimitsExceeded))));
}

fn crc(data: &[u8]) -> u32 {
    let mut crc: u32 = !0;
    for byte in data {
        crc ^= *byte as u32;
        for _ in 0..8 {
            crc = if crc & 1 == 1 { (crc >> 1) ^ 0xedb8_8320 } else { crc >> 1 };
        }
    }
    !crc
}

#[test]
fn pixels_are_widened() {
    assert_eq!(rgb2rgba(vec![]), Vec::<u8>::new());
    assert_eq!(rgb2rgba(vec![1, 2, 3]), vec![1, 2, 3, 255]);
    assert_eq!(rgb2rgba(vec![1, 2, 3, 0, 0, 0, 7, 8, 9]), vec![1, 2, 3, 255, 0, 0, 0, 255, 7, 8, 9, 255]);
}

#[test]
fn widening_loses_no_colour() {
    let rgb: Vec<u8> = (0..=254).collect();
    let rgba = rgb2rgba(rgb.clone());
    let back: Vec<u8> = rgba.chunks(4).flat_map(|p| [p[0], p[1], p[2]]).collect();
    assert_eq!(back, rgb);
    assert!(rgba.chunks(4).all(|p| p[3] == 255));
}

#[test]
fn only_triples_become_a_texture() {
    let info = OutputInfo { width: 2, height: 1, color_type: 2, bit_depth: 8, line_size: 6 };
    let texture = texture_from_image(vec![1, 2, 3, 4, 5, 6], info).unwrap();
    assert_eq!(texture.pixels, vec![1, 2, 3, 255, 4, 5, 6, 255]);
    assert_eq!(texture.info, OutputInfo { color_type: 6, ..info });
    assert!(matches!(texture_from_image(vec![1, 2, 3, 4, 5], info), Err(TextureError::NotRgb)));
    assert!(matches!(texture_from_image(vec![1], info), Err(TextureError::NotRgb)));
}

fn chunk(kind: &[u8], data: &[u8]) -> Vec<u8> {
    let mut body: Vec<u8> = kind.to_vec();
    body.extend_from_slice(data);
    let mut bytes: Vec<u8> = (data.len() as u32).to_be_bytes().to_vec();
    bytes.extend_from_slice(&body);
    bytes.extend_from_slice(&crc(&body).to_be_bytes());
    bytes
}

/// An animated file of two by two pixels whose first frame is one pixel.
fn small_first_frame() -> Vec<u8> {
    let still = encode(1, 1, png::ColorType::Rgb, &[10, 20, 30]);
    let at = still.windows(4).position(|w| w == b"IDAT").unwrap();
    let len = u32::from_be_bytes([still[at - 4], still[at - 3], still[at - 2], still[at - 1]]) as usize;
    let data = &still[at + 4..at + 4 + len];
    let mut bytes: Vec<u8> = still[..8].to_vec();
    bytes.extend(chunk(b"IHDR", &[0, 0, 0, 2, 0, 0, 0, 2, 8, 2, 0, 0, 0]));
    bytes.extend(chunk(b"acTL", &[0, 0, 0, 1, 0, 0, 0, 0]));
    bytes.extend(chunk(
        b"fcTL",
        &[0, 0, 0, 0, 0, 0, 0, 1, 0, 0, 0, 1, 0, 0, 0, 0, 0, 0, 0, 0, 0, 1, 0, 1, 0, 0],
    ));
    bytes.extend(chunk(b"IDAT", data));
    bytes.extend(chunk(b"IEND", &[]));
    bytes
}

#[test]
fn a_small_first_frame_leaves_pixels_over() {
    let bytes = small_first_frame();
    let (pixels, info) = read_img(&bytes).unwrap();
    assert_eq!((info.width, info.height, info.line_size), (1, 1, 3));
    assert_eq!(pixels, vec![10, 20, 30, 0, 0, 0, 0, 0, 0, 0, 0, 0]);
    let texture = load_texture(&bytes).unwrap();
    assert_eq!(texture.pixels.len(), 16);
    assert_eq!(&texture.pixels[..4], &[10, 20, 30, 255]);
}

#[test]
fn a_still_image_fills_the_buffer() {
    // Colour type, bits of a sample, bytes of a line of five pixels.
    let cases = [
        (png::ColorType::Grayscale, png::BitDepth::One, 1, 1),
        (png::ColorType::Grayscale, png::BitDepth::Two, 2, 2),
        (png::ColorType::Grayscale, png::BitDepth::Four, 4, 3),
        (png::ColorType::Grayscale, png::BitDepth::Eight, 8, 5),
        (png::ColorType::GrayscaleAlpha, png::BitDepth::Eight, 8, 10),
        (png::ColorType::Rgb, png::BitDepth::Eight, 8, 15),
        (png::ColorType::Rgb, png::BitDepth::Sixteen, 16, 30),
        (png::ColorType::Rgba, png::BitDepth::Eight, 8, 20),
        (png::ColorType::Rgba, png::BitDepth::Sixteen, 16, 40),
    ];
    for (color, depth, bit_depth, line_size) in cases {
        let bytes = encode_samples(5, 3, color, depth, &vec![0; 3 * line_size]);
        let (pixels, info) = read_img(&bytes).unwrap();
        let expected = OutputInfo { width: 5, height: 3, color_type: color as u8, bit_depth, line_size };
        assert_eq!(info, expected);
        assert_eq!(pixels.len(), 3 * line_size);
    }
}

#[test]
fn a_header_without_data_is_passed_over() {
    let still = encode(2, 1, png::ColorType::Rgb, &[1, 2, 3, 4, 5, 6]);
    let mut bytes: Vec<u8> = still[..8].to_vec();
    bytes.extend(chunk(b"IHDR", &[]));
    bytes.extend_from_slice(&still[8..]);
    let texture = load_texture(&bytes).unwrap();
    assert_eq!(texture.pixels, vec![1, 2, 3, 255, 4, 5, 6, 255]);
    assert_eq!((texture.info.width, texture.info.height), (2, 1));
}

#[test]
fn a_first_frame_as_large_as_the_image_fills_it() {
    let mut bytes: Vec<u8> = Vec::new();
    {
        let mut encoder = png::Encoder::new(&mut bytes, 2, 2);
        encoder.set_color(png::ColorType::Rgb);
        encoder.set_depth(png::BitDepth::Eight);
        encoder.set_animated(1, 0).unwrap();
        let mut writer = encoder.write_header().unwrap();
        writer.write_image_data(&[9; 12]).unwrap();
    }
    assert!(bytes.windows(4).any(|w| w == b"fcTL"));
    let texture = load_texture(&bytes).unwrap();
    assert_eq!((texture.info.width, texture.info.height), (2, 2));
    assert_eq!(texture.pixels.len(), 16);
}

#[test]
fn rgb_files_of_any_size_are_accepted() {
    for (width, height) in [(1, 1), (1, 2), (2, 1), (5, 7), (13, 3)] {
        let rgb: Vec<u8> = (0..3 * width * height).map(|i| i as u8).collect();
        let bytes = encode(width, height, png::ColorType::Rgb, &rgb);
        let texture = load_texture(&bytes).unwrap();
        assert_eq!(texture.pixels.len(), (4 * width * height) as usize);
        assert_eq!((texture.info.width, texture.info.height), (width, height));
        assert!(texture.pixels.chunks(4).all(|p| p[3] == 255));
    }
}

#[test]
fn slices_are_the_sum_of_their_parts() {
    let items = [1u32, 2, 3, 4, 5];
    for k in 0..=items.len() {
        assert_eq!(slice_size(&items), slice_size(&items[..k]) + slice_size(&items[k..]));
    }
    assert_eq!(slice_size(&items), 20);
}

#[test]
fn sizes_add_up() {
    let info = OutputInfo { width: 1, height: 1, color_type: 2, bit_depth: 8, line_size: 3 };
    let textures: Vec<Texture> = vec![
        rgba_texture(vec![1, 2, 3], info),
        rgba_texture(vec![0; 30], info),
        rgba_texture(vec![], info),
    ];
    assert_eq!(img_mem_size(&textures), 44);
    assert_eq!(img_mem_size(&[]), 0);
}

#[test]
fn slices_are_measured_in_bytes() {
    assert_eq!(slice_size(&[0u32, 1, 2, 3, 2, 0]), 24);
    assert_eq!(slice_size(&[1u8, 2, 3]), 3);
    assert_eq!(slice_size::<u64>(&[]), 0);
}
