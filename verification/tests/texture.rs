use playground_wgpu::buffer::BufferUsage;
use playground_wgpu::error::{ImageDefect, RenderError};
use playground_wgpu::format::{TextureFormat, TextureUsage};
use playground_wgpu::dds::check_surface;
use playground_wgpu::png::{check_stream, read_header, Header};
use playground_wgpu::texture::check_container;
use playground_wgpu::texture::{
    AddressMode, BufferCopyView, CompareFunction, DecodedImage, Extent3d, FilterMode, Origin3d,
    SamplerDescriptor, Texture, TextureAspect, TextureCopyView, TextureDescriptor,
    TextureDimension, TextureViewDescriptor, TextureViewDimension,
};
use playground_wgpu::upload::upload_texture;

fn rgba_pixels(width: u32, height: u32) -> Vec<u8> {
    let mut pixels = Vec::new();
    for y in 0..height {
        for x in 0..width {
            pixels.push((x * 40 + 1) as u8);
            pixels.push((y * 60 + 2) as u8);
            pixels.push((x + y + 3) as u8);
            pixels.push(255 - (x * y) as u8);
        }
    }
    pixels
}

fn png(width: u32, height: u32, data: &[u8], color: image::ColorType) -> Vec<u8> {
    let mut bytes = Vec::new();
    image::png::PngEncoder::new(&mut bytes).encode(data, width, height, color).unwrap();
    bytes
}

fn expected_texture(width: u32, height: u32) -> Texture {
    Texture {
        texture: TextureDescriptor {
            size: Extent3d { width, height, depth: 1 },
            array_layer_count: 1,
            mip_level_count: 1,
            sample_count: 1,
            dimension: TextureDimension::D2,
            format: TextureFormat::Rgba8UnormSrgb,
            usage: TextureUsage {
                copy_src: false,
                copy_dst: true,
                sampled: true,
                storage: false,
                output_attachment: false,
            },
        },
        view: TextureViewDescriptor {
            format: TextureFormat::Rgba8UnormSrgb,
            dimension: TextureViewDimension::D2,
            aspect: TextureAspect::All,
            base_mip_level: 0,
            level_count: 1,
            base_array_layer: 0,
            array_layer_count: 1,
        },
        sampler: SamplerDescriptor {
            address_mode_u: AddressMode::ClampToEdge,
            address_mode_v: AddressMode::ClampToEdge,
            address_mode_w: AddressMode::ClampToEdge,
            mag_filter: FilterMode::Linear,
            min_filter: FilterMode::Nearest,
            mipmap_filter: FilterMode::Nearest,
            lod_min_clamp: -100,
            lod_max_clamp: 100,
            compare: CompareFunction::Always,
        },
    }
}

#[test]
fn png_decodes_to_texture_of_its_extent() {
    let pixels = rgba_pixels(3, 2);
    let bytes = png(3, 2, &pixels, image::ColorType::Rgba8);
    let (texture, upload) = Texture::from_bytes(&bytes).unwrap();
    assert_eq!(texture.texture.size, Extent3d { width: 3, height: 2, depth: 1 });
    assert_eq!(texture, expected_texture(3, 2));
    assert_eq!(upload.copy_size, Extent3d { width: 3, height: 2, depth: 1 });
    assert_eq!(
        upload.source,
        BufferCopyView { offset: 0, bytes_per_row: 12, rows_per_image: 2 }
    );
    assert_eq!(
        upload.destination,
        TextureCopyView { mip_level: 0, array_layer: 0, origin: Origin3d { x: 0, y: 0, z: 0 } }
    );
    assert_eq!(upload.staging.usage(), BufferUsage::CopySrc);
    assert_eq!(upload.staging.contents(), pixels.as_slice());
    assert_ne!(upload.staging.contents(), bytes.as_slice());
}

#[test]
fn larger_png_keeps_every_pixel() {
    let pixels = rgba_pixels(17, 9);
    let bytes = png(17, 9, &pixels, image::ColorType::Rgba8);
    let (texture, upload) = Texture::from_bytes(&bytes).unwrap();
    assert_eq!(texture.texture.size, Extent3d { width: 17, height: 9, depth: 1 });
    assert_eq!(upload.source.bytes_per_row, 68);
    assert_eq!(upload.source.rows_per_image, 9);
    assert_eq!(upload.staging.size(), 17 * 9 * 4);
    assert_eq!(upload.staging.contents(), pixels.as_slice());
}

fn crc32(bytes: &[u8]) -> u32 {
    let mut crc = 0xffff_ffffu32;
    for byte in bytes {
        crc ^= u32::from(*byte);
        for _ in 0..8 {
            crc = if crc & 1 == 1 { (crc >> 1) ^ 0xedb8_8320 } else { crc >> 1 };
        }
    }
    !crc
}

fn chunk(kind: &[u8; 4], data: &[u8]) -> Vec<u8> {
    let mut body = kind.to_vec();
    body.extend_from_slice(data);
    let mut bytes = (data.len() as u32).to_be_bytes().to_vec();
    bytes.extend_from_slice(&body);
    bytes.extend_from_slice(&crc32(&body).to_be_bytes());
    bytes
}

fn with_chunk_after_header(png: &[u8], extra: &[u8]) -> Vec<u8> {
    let mut bytes = png[..33].to_vec();
    bytes.extend_from_slice(extra);
    bytes.extend_from_slice(&png[33..]);
    bytes
}

fn with_header_size(png: &[u8], width: u32, height: u32) -> Vec<u8> {
    let mut bytes = png.to_vec();
    bytes[16..20].copy_from_slice(&width.to_be_bytes());
    bytes[20..24].copy_from_slice(&height.to_be_bytes());
    let crc = crc32(&bytes[12..29]);
    bytes[29..33].copy_from_slice(&crc.to_be_bytes());
    bytes
}

fn defect(defect: ImageDefect) -> RenderError {
    RenderError::ImageDecodeError(defect)
}

#[test]
fn header_of_a_png_is_read() {
    let bytes = png(3, 2, &rgba_pixels(3, 2), image::ColorType::Rgba8);
    assert_eq!(
        read_header(&bytes),
        Some(Header { width: 3, height: 2, bit_depth: 8, color_type: 6 })
    );
    assert_eq!(check_stream(&bytes), None);
    let gray = png(2, 2, &[0, 50, 100, 150], image::ColorType::L8);
    assert_eq!(
        read_header(&gray),
        Some(Header { width: 2, height: 2, bit_depth: 8, color_type: 0 })
    );
    assert_eq!(read_header(b"no header here"), None);
    assert_eq!(read_header(&bytes[..32]), None);
}

fn dds(width: u32, height: u32, fourcc: &[u8; 4], blocks: &[u8]) -> Vec<u8> {
    let mut bytes = b"DDS ".to_vec();
    bytes.extend_from_slice(&124u32.to_le_bytes());
    bytes.extend_from_slice(&0x1007u32.to_le_bytes());
    bytes.extend_from_slice(&height.to_le_bytes());
    bytes.extend_from_slice(&width.to_le_bytes());
    bytes.resize(76, 0);
    bytes.extend_from_slice(&32u32.to_le_bytes());
    bytes.extend_from_slice(&4u32.to_le_bytes());
    bytes.extend_from_slice(fourcc);
    bytes.resize(128, 0);
    bytes.extend_from_slice(blocks);
    bytes
}

const RED_DXT5_BLOCK: [u8; 16] = [255, 255, 0, 0, 0, 0, 0, 0, 0x00, 0xf8, 0x00, 0xf8, 0, 0, 0, 0];

#[test]
fn dds_header_without_width_never_reaches_the_decoder() {
    let bytes = dds(0, 4, b"DXT1", &[]);
    assert_eq!(check_surface(&bytes), Some(ImageDefect::Malformed));
    assert_eq!(check_container(&bytes), Some(ImageDefect::Malformed));
    assert_eq!(Texture::from_bytes(&bytes), Err(defect(ImageDefect::Malformed)));
    assert_eq!(upload_texture(&bytes), Err(defect(ImageDefect::Malformed)));
    let with_alpha = dds(0, 0, b"DXT5", &RED_DXT5_BLOCK);
    assert_eq!(Texture::from_bytes(&with_alpha), Err(defect(ImageDefect::Malformed)));
}

#[test]
fn dds_surface_with_alpha_becomes_a_texture() {
    let mut blocks = RED_DXT5_BLOCK.to_vec();
    blocks.extend_from_slice(&RED_DXT5_BLOCK);
    let bytes = dds(8, 4, b"DXT5", &blocks);
    assert_eq!(check_container(&bytes), None);
    let (texture, upload) = Texture::from_bytes(&bytes).unwrap();
    assert_eq!(texture.texture.size, Extent3d { width: 8, height: 4, depth: 1 });
    assert_eq!(upload.source.bytes_per_row, 32);
    let expected: Vec<u8> = [255u8, 0, 0, 255].iter().cycle().take(8 * 4 * 4).cloned().collect();
    assert_eq!(upload.staging.contents(), expected.as_slice());
}

#[test]
fn dds_surface_without_alpha_is_unsupported() {
    let bytes = dds(4, 4, b"DXT1", &[0x00, 0xf8, 0x00, 0xf8, 0, 0, 0, 0]);
    assert_eq!(check_container(&bytes), None);
    assert_eq!(Texture::from_bytes(&bytes), Err(defect(ImageDefect::UnsupportedFormat)));
}

#[test]
fn dds_surface_the_decoder_cannot_read_is_malformed() {
    let short_of_blocks = dds(8, 4, b"DXT5", &RED_DXT5_BLOCK);
    assert_eq!(check_container(&short_of_blocks), None);
    assert_eq!(Texture::from_bytes(&short_of_blocks), Err(defect(ImageDefect::Malformed)));
    let odd_size = dds(6, 4, b"DXT5", &RED_DXT5_BLOCK);
    assert_eq!(Texture::from_bytes(&odd_size), Err(defect(ImageDefect::Malformed)));
    let unknown = dds(4, 4, b"ATI2", &RED_DXT5_BLOCK);
    assert_eq!(Texture::from_bytes(&unknown), Err(defect(ImageDefect::Malformed)));
    assert_eq!(check_surface(b"DDS "), None);
    assert_eq!(Texture::from_bytes(b"DDS "), Err(defect(ImageDefect::Malformed)));
    assert_eq!(Texture::from_bytes(&dds(4, 4, b"DXT5", &[])[..60]), Err(defect(ImageDefect::Malformed)));
}

#[test]
fn dds_surface_too_large_is_turned_away() {
    let bytes = dds(u32::MAX - 3, u32::MAX - 3, b"DXT5", &[]);
    assert_eq!(check_surface(&bytes), Some(ImageDefect::TooLarge));
    assert_eq!(Texture::from_bytes(&bytes), Err(defect(ImageDefect::TooLarge)));
}

#[test]
fn other_containers_are_turned_away() {
    let mut jpeg = vec![0xff, 0xd8, 0xff, 0xe0];
    jpeg.resize(64, 0);
    let mut gif = b"GIF89a".to_vec();
    gif.resize(64, 0);
    let mut bmp = b"BM".to_vec();
    bmp.resize(64, 0);
    for bytes in [jpeg, gif, bmp] {
        assert_eq!(check_stream(&bytes), Some(ImageDefect::UnsupportedContainer));
        assert_eq!(Texture::from_bytes(&bytes), Err(defect(ImageDefect::UnsupportedContainer)));
    }
}

#[test]
fn png_without_area_is_malformed() {
    let bytes = png(2, 2, &rgba_pixels(2, 2), image::ColorType::Rgba8);
    for (width, height) in [(0, 2), (2, 0), (0, 0)] {
        let patched = with_header_size(&bytes, width, height);
        assert_eq!(check_stream(&patched), Some(ImageDefect::Malformed));
        assert_eq!(Texture::from_bytes(&patched), Err(defect(ImageDefect::Malformed)));
    }
}

#[test]
fn png_too_large_to_count_is_turned_away() {
    let bytes = png(2, 2, &rgba_pixels(2, 2), image::ColorType::Rgba8);
    let vast = with_header_size(&bytes, u32::MAX, u32::MAX);
    assert_eq!(check_stream(&vast), Some(ImageDefect::TooLarge));
    assert_eq!(Texture::from_bytes(&vast), Err(defect(ImageDefect::TooLarge)));
    let wide = with_header_size(&bytes, (1 << 30) - 1, u32::MAX);
    assert_eq!(Texture::from_bytes(&wide), Err(defect(ImageDefect::TooLarge)));
}

#[test]
fn png_with_wrong_size_in_header_is_malformed() {
    let bytes = png(2, 2, &rgba_pixels(2, 2), image::ColorType::Rgba8);
    let patched = with_header_size(&bytes, 3, 2);
    assert_eq!(check_stream(&patched), None);
    assert_eq!(Texture::from_bytes(&patched), Err(defect(ImageDefect::Malformed)));
}

#[test]
fn png_of_other_depth_is_unsupported() {
    let samples = vec![0u8; 2 * 2 * 8];
    let deep = png(2, 2, &samples, image::ColorType::Rgba16);
    assert_eq!(check_stream(&deep), None);
    assert_eq!(Texture::from_bytes(&deep), Err(defect(ImageDefect::UnsupportedFormat)));
    let gray_alpha = png(2, 2, &[0u8; 8], image::ColorType::La8);
    assert_eq!(check_stream(&gray_alpha), None);
    assert_eq!(Texture::from_bytes(&gray_alpha), Err(defect(ImageDefect::UnsupportedFormat)));
}

#[test]
fn animated_png_gives_its_first_image() {
    let pixels = rgba_pixels(2, 2);
    let bytes = png(2, 2, &pixels, image::ColorType::Rgba8);
    let announced = with_chunk_after_header(&bytes, &chunk(b"acTL", &[0, 0, 0, 1, 0, 0, 0, 0]));
    assert_eq!(check_stream(&announced), None);
    let (texture, upload) = Texture::from_bytes(&announced).unwrap();
    assert_eq!(texture.texture.size, Extent3d { width: 2, height: 2, depth: 1 });
    assert_eq!(upload.staging.contents(), pixels.as_slice());
    let mut control = vec![0u8; 26];
    control[7] = 2;
    control[11] = 2;
    let mut chunks = chunk(b"acTL", &[0, 0, 0, 1, 0, 0, 0, 0]);
    chunks.extend_from_slice(&chunk(b"fcTL", &control));
    let framed = with_chunk_after_header(&bytes, &chunks);
    assert_eq!(check_stream(&framed), None);
    let (texture, upload) = Texture::from_bytes(&framed).unwrap();
    assert_eq!(texture.texture.size, Extent3d { width: 2, height: 2, depth: 1 });
    assert_eq!(upload.staging.contents(), pixels.as_slice());
}

#[test]
fn animated_png_with_frames_out_of_order_is_malformed() {
    let bytes = png(2, 2, &rgba_pixels(2, 2), image::ColorType::Rgba8);
    let mut control = vec![0u8; 26];
    control[3] = 5;
    control[7] = 2;
    control[11] = 2;
    let framed = with_chunk_after_header(&bytes, &chunk(b"fcTL", &control));
    assert_eq!(check_stream(&framed), None);
    assert_eq!(Texture::from_bytes(&framed), Err(defect(ImageDefect::Malformed)));
    let later_data = with_chunk_after_header(&bytes, &chunk(b"fdAT", &[0, 0, 0, 1, 9, 9]));
    assert_eq!(check_stream(&later_data), None);
    assert_eq!(Texture::from_bytes(&later_data), Err(defect(ImageDefect::Malformed)));
}

fn hand_made_png(header: &[u8; 13], between: &[u8], raw: &[u8]) -> Vec<u8> {
    let mut bytes = vec![137, 80, 78, 71, 13, 10, 26, 10];
    bytes.extend_from_slice(&chunk(b"IHDR", header));
    bytes.extend_from_slice(between);
    bytes.extend_from_slice(&chunk(b"IDAT", &stored_zlib(raw)));
    bytes.extend_from_slice(&chunk(b"IEND", &[]));
    bytes
}

#[test]
fn palette_png_with_transparency_becomes_rgba() {
    let mut between = chunk(b"PLTE", &[10, 20, 30, 40, 50, 60]);
    between.extend_from_slice(&chunk(b"tRNS", &[255, 128]));
    let bytes = hand_made_png(&[0, 0, 0, 2, 0, 0, 0, 1, 8, 3, 0, 0, 0], &between, &[0, 0, 1]);
    assert_eq!(check_stream(&bytes), None);
    let (texture, upload) = Texture::from_bytes(&bytes).unwrap();
    assert_eq!(texture.texture.size, Extent3d { width: 2, height: 1, depth: 1 });
    assert_eq!(upload.staging.contents(), [10, 20, 30, 255, 40, 50, 60, 128]);
    let opaque = hand_made_png(
        &[0, 0, 0, 2, 0, 0, 0, 1, 8, 3, 0, 0, 0],
        &chunk(b"PLTE", &[10, 20, 30, 40, 50, 60]),
        &[0, 0, 1],
    );
    assert_eq!(Texture::from_bytes(&opaque), Err(defect(ImageDefect::UnsupportedFormat)));
}

#[test]
fn rgb_png_with_transparent_colour_becomes_rgba() {
    let between = chunk(b"tRNS", &[0, 1, 0, 2, 0, 3]);
    let raw = [0, 1, 2, 3, 4, 5, 6];
    let bytes = hand_made_png(&[0, 0, 0, 2, 0, 0, 0, 1, 8, 2, 0, 0, 0], &between, &raw);
    let (texture, upload) = Texture::from_bytes(&bytes).unwrap();
    assert_eq!(texture.texture.size, Extent3d { width: 2, height: 1, depth: 1 });
    assert_eq!(upload.staging.contents(), [1, 2, 3, 0, 4, 5, 6, 255]);
}

#[test]
fn png_with_small_samples_is_decoded_and_unsupported() {
    let one_bit = hand_made_png(&[0, 0, 0, 3, 0, 0, 0, 1, 1, 0, 0, 0, 0], &[], &[0, 0b1010_0000]);
    assert_eq!(check_stream(&one_bit), None);
    assert_eq!(Texture::from_bytes(&one_bit), Err(defect(ImageDefect::UnsupportedFormat)));
    let wrong_depth = hand_made_png(&[0, 0, 0, 3, 0, 0, 0, 1, 4, 6, 0, 0, 0], &[], &[0; 7]);
    assert_eq!(Texture::from_bytes(&wrong_depth), Err(defect(ImageDefect::Malformed)));
}

#[test]
fn png_with_second_header_or_early_end_is_malformed() {
    let bytes = png(2, 2, &rgba_pixels(2, 2), image::ColorType::Rgba8);
    let doubled = with_chunk_after_header(&bytes, &bytes[8..33]);
    assert_eq!(check_stream(&doubled), Some(ImageDefect::Malformed));
    assert_eq!(Texture::from_bytes(&doubled), Err(defect(ImageDefect::Malformed)));
    let ended = with_chunk_after_header(&bytes, &chunk(b"IEND", &[]));
    assert_eq!(Texture::from_bytes(&ended), Err(defect(ImageDefect::Malformed)));
    let mut headless = bytes[..33].to_vec();
    headless.extend_from_slice(&chunk(b"tEXt", b"key\0value"));
    assert_eq!(check_stream(&headless), Some(ImageDefect::Malformed));
}

#[test]
fn png_with_chunk_past_the_end_is_malformed() {
    let bytes = png(2, 2, &rgba_pixels(2, 2), image::ColorType::Rgba8);
    let mut long = chunk(b"tEXt", b"note");
    long[3] = 200;
    let patched = with_chunk_after_header(&bytes, &long);
    assert_eq!(check_stream(&patched), Some(ImageDefect::Malformed));
    assert_eq!(check_stream(&bytes[..40]), Some(ImageDefect::Malformed));
    assert_eq!(Texture::from_bytes(&bytes[..40]), Err(defect(ImageDefect::Malformed)));
}

#[test]
fn other_chunks_before_the_image_data_are_passed_over() {
    let pixels = rgba_pixels(5, 3);
    let bytes = png(5, 3, &pixels, image::ColorType::Rgba8);
    let mut extra = chunk(b"tEXt", b"Title\0pentagon");
    extra.extend_from_slice(&chunk(b"gAMA", &[0, 0, 0xb1, 0x8f]));
    let noted = with_chunk_after_header(&bytes, &extra);
    assert_eq!(check_stream(&noted), None);
    let (texture, upload) = Texture::from_bytes(&noted).unwrap();
    assert_eq!(texture.texture.size, Extent3d { width: 5, height: 3, depth: 1 });
    assert_eq!(upload.staging.contents(), pixels.as_slice());
}

fn adler32(bytes: &[u8]) -> u32 {
    let (mut a, mut b) = (1u32, 0u32);
    for byte in bytes {
        a = (a + u32::from(*byte)) % 65521;
        b = (b + a) % 65521;
    }
    (b << 16) | a
}

fn stored_zlib(raw: &[u8]) -> Vec<u8> {
    let length = raw.len() as u16;
    let mut bytes = vec![0x78, 0x01, 0x01];
    bytes.extend_from_slice(&length.to_le_bytes());
    bytes.extend_from_slice(&(!length).to_le_bytes());
    bytes.extend_from_slice(raw);
    bytes.extend_from_slice(&adler32(raw).to_be_bytes());
    bytes
}

#[test]
fn interlaced_png_decodes_in_row_order() {
    let (p00, p10, p01, p11) = ([1, 2, 3, 4], [5, 6, 7, 8], [9, 10, 11, 12], [13, 14, 15, 16]);
    let mut raw = vec![0];
    raw.extend_from_slice(&p00);
    raw.push(0);
    raw.extend_from_slice(&p10);
    raw.push(0);
    raw.extend_from_slice(&p01);
    raw.extend_from_slice(&p11);
    let mut bytes = vec![137, 80, 78, 71, 13, 10, 26, 10];
    bytes.extend_from_slice(&chunk(b"IHDR", &[0, 0, 0, 2, 0, 0, 0, 2, 8, 6, 0, 0, 1]));
    bytes.extend_from_slice(&chunk(b"IDAT", &stored_zlib(&raw)));
    bytes.extend_from_slice(&chunk(b"IEND", &[]));
    assert_eq!(check_stream(&bytes), None);
    let (texture, upload) = Texture::from_bytes(&bytes).unwrap();
    assert_eq!(texture.texture.size, Extent3d { width: 2, height: 2, depth: 1 });
    let expected: Vec<u8> = [p00, p10, p01, p11].concat();
    assert_eq!(upload.staging.contents(), expected.as_slice());
}

#[test]
fn png_with_image_data_in_pieces_decodes() {
    let pixels: Vec<u8> = (1..=16).collect();
    let mut raw = vec![0];
    raw.extend_from_slice(&pixels[..8]);
    raw.push(0);
    raw.extend_from_slice(&pixels[8..]);
    let stream = stored_zlib(&raw);
    let mut bytes = vec![137, 80, 78, 71, 13, 10, 26, 10];
    bytes.extend_from_slice(&chunk(b"IHDR", &[0, 0, 0, 2, 0, 0, 0, 2, 8, 6, 0, 0, 0]));
    bytes.extend_from_slice(&chunk(b"IDAT", &stream[..7]));
    bytes.extend_from_slice(&chunk(b"IDAT", &stream[7..]));
    bytes.extend_from_slice(&chunk(b"IEND", &[]));
    let (_, upload) = Texture::from_bytes(&bytes).unwrap();
    assert_eq!(upload.staging.contents(), pixels.as_slice());
    let mut short = vec![137, 80, 78, 71, 13, 10, 26, 10];
    short.extend_from_slice(&chunk(b"IHDR", &[0, 0, 0, 2, 0, 0, 0, 2, 8, 6, 0, 0, 0]));
    short.extend_from_slice(&chunk(b"IDAT", &stored_zlib(&raw[..9])));
    short.extend_from_slice(&chunk(b"IEND", &[]));
    assert_eq!(Texture::from_bytes(&short), Err(defect(ImageDefect::Malformed)));
}

#[test]
fn png_with_damaged_check_sum_is_malformed() {
    let bytes = png(2, 2, &rgba_pixels(2, 2), image::ColorType::Rgba8);
    let mut damaged = bytes.clone();
    damaged[30] ^= 0xff;
    assert_eq!(check_stream(&damaged), None);
    assert_eq!(Texture::from_bytes(&damaged), Err(defect(ImageDefect::Malformed)));
}

#[test]
fn malformed_bytes_give_decode_error() {
    assert_eq!(
        Texture::from_bytes(b"this is not an image"),
        Err(RenderError::ImageDecodeError(ImageDefect::UnsupportedContainer))
    );
    assert_eq!(
        Texture::from_bytes(&[]),
        Err(RenderError::ImageDecodeError(ImageDefect::UnsupportedContainer))
    );
    assert_eq!(
        Texture::from_bytes(&[137, 80, 78, 71, 13, 10, 26, 10]),
        Err(RenderError::ImageDecodeError(ImageDefect::Malformed))
    );
}

#[test]
fn truncated_png_gives_decode_error() {
    let pixels = rgba_pixels(8, 8);
    let bytes = png(8, 8, &pixels, image::ColorType::Rgba8);
    assert_eq!(
        Texture::from_bytes(&bytes[..bytes.len() / 2]),
        Err(RenderError::ImageDecodeError(ImageDefect::Malformed))
    );
}

#[test]
fn png_without_alpha_is_unsupported() {
    let rgb: Vec<u8> = (0..2 * 2 * 3).map(|v| v as u8).collect();
    let bytes = png(2, 2, &rgb, image::ColorType::Rgb8);
    assert_eq!(
        Texture::from_bytes(&bytes),
        Err(RenderError::ImageDecodeError(ImageDefect::UnsupportedFormat))
    );
    let gray: Vec<u8> = vec![0, 50, 100, 150];
    let bytes = png(2, 2, &gray, image::ColorType::L8);
    assert_eq!(
        Texture::from_bytes(&bytes),
        Err(RenderError::ImageDecodeError(ImageDefect::UnsupportedFormat))
    );
}

#[test]
fn upload_texture_is_from_bytes() {
    let pixels = rgba_pixels(4, 4);
    let bytes = png(4, 4, &pixels, image::ColorType::Rgba8);
    assert_eq!(upload_texture(&bytes), Texture::from_bytes(&bytes));
    assert_eq!(
        upload_texture(b"junk"),
        Err(RenderError::ImageDecodeError(ImageDefect::UnsupportedContainer))
    );
}

#[test]
fn image_becomes_texture_and_upload() {
    let pixels = rgba_pixels(2, 3);
    let img = DecodedImage { width: 2, height: 3, rgba8: Some(pixels.clone()) };
    let (texture, upload) = Texture::from_image(&img).unwrap();
    assert_eq!(texture, expected_texture(2, 3));
    assert_eq!(upload.source.bytes_per_row, 8);
    assert_eq!(upload.source.rows_per_image, 3);
    assert_eq!(upload.copy_size, texture.texture.size);
    assert_eq!(upload.staging.contents(), pixels.as_slice());
}

#[test]
fn image_without_rgba_samples_is_unsupported() {
    let img = DecodedImage { width: 2, height: 2, rgba8: None };
    assert_eq!(
        Texture::from_image(&img),
        Err(RenderError::ImageDecodeError(ImageDefect::UnsupportedFormat))
    );
}

#[test]
fn image_with_wrong_sample_count_is_rejected() {
    let short = DecodedImage { width: 2, height: 2, rgba8: Some(vec![0; 15]) };
    assert_eq!(
        Texture::from_image(&short),
        Err(RenderError::ImageDecodeError(ImageDefect::SizeMismatch))
    );
    let long = DecodedImage { width: 2, height: 2, rgba8: Some(vec![0; 17]) };
    assert_eq!(
        Texture::from_image(&long),
        Err(RenderError::ImageDecodeError(ImageDefect::SizeMismatch))
    );
}

#[test]
fn image_with_too_long_rows_is_rejected() {
    let img = DecodedImage { width: 1 << 30, height: 0, rgba8: Some(Vec::new()) };
    assert_eq!(
        Texture::from_image(&img),
        Err(RenderError::ImageDecodeError(ImageDefect::TooLarge))
    );
    let widest = DecodedImage { width: (1 << 30) - 1, height: 0, rgba8: Some(Vec::new()) };
    let (texture, upload) = Texture::from_image(&widest).unwrap();
    assert_eq!(texture.texture.size.width, (1 << 30) - 1);
    assert_eq!(upload.source.bytes_per_row, u32::MAX - 3);
}

#[test]
fn sampler_clamps_and_filters() {
    let img = DecodedImage { width: 1, height: 1, rgba8: Some(vec![1, 2, 3, 4]) };
    let (texture, _) = Texture::from_image(&img).unwrap();
    let sampler = texture.sampler;
    assert_eq!(sampler.address_mode_u, AddressMode::ClampToEdge);
    assert_eq!(sampler.address_mode_v, AddressMode::ClampToEdge);
    assert_eq!(sampler.address_mode_w, AddressMode::ClampToEdge);
    assert_eq!(sampler.mag_filter, FilterMode::Linear);
    assert_eq!(sampler.min_filter, FilterMode::Nearest);
    assert_eq!(sampler.mipmap_filter, FilterMode::Nearest);
    assert_eq!(sampler.compare, CompareFunction::Always);
    assert_eq!(f32::from(sampler.lod_min_clamp as i16), -100.0);
    assert_eq!(f32::from(sampler.lod_max_clamp as i16), 100.0);
}

#[test]
fn small_checker_png_decodes() {
    let bytes: [u8; 84] = [
        137, 80, 78, 71, 13, 10, 26, 10, 0, 0, 0, 13, 73, 72, 68, 82, 0, 0, 0, 4, 0, 0, 0, 4, 8, 6, 0, 0, 0, 169, 241, 158, 126, 0, 0, 0, 27, 73, 68, 65, 84, 120, 218, 99, 80, 234, 86, 250, 15, 194, 221, 81, 218, 96, 204, 128, 33, 0, 99, 192, 36, 48, 4, 0, 13, 228, 30, 233, 142, 223, 57, 200, 0, 0, 0, 0, 73, 69, 78, 68, 174, 66, 96, 130,
    ];
    assert_eq!(check_stream(&bytes), None);
    let (texture, upload) = Texture::from_bytes(&bytes).unwrap();
    assert_eq!(texture.texture.size, Extent3d { width: 4, height: 4, depth: 1 });
    assert_eq!(upload.source.bytes_per_row, 16);
    assert_eq!(upload.staging.size(), 64);
    assert_eq!(&upload.staging.contents()[..4], [34, 139, 34, 255]);
    assert_eq!(&upload.staging.contents()[8..12], [139, 90, 43, 255]);
}
