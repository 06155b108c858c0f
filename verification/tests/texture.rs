use render_core::texture_library::{
    ktx2_precheck, texture_catalog, validate_header, Ktx2Info, Texture, TextureError, TextureId,
    TextureLibrary, RGBA8_SRGB_FORMAT, TEXTURE_COUNT,
};

/// The twelve identifier bytes every KTX2 container starts with.
const MAGIC: [u8; 12] = [0xAB, 0x4B, 0x54, 0x58, 0x20, 0x32, 0x30, 0xBB, 0x0D, 0x0A, 0x1A, 0x0A];

fn put32(buf: &mut [u8], off: usize, v: u32) {
    buf[off..off + 4].copy_from_slice(&v.to_le_bytes());
}

fn put64(buf: &mut [u8], off: usize, v: u64) {
    buf[off..off + 8].copy_from_slice(&v.to_le_bytes());
}

/// A minimal well-formed container: 2x2 RGBA8 sRGB, one mip level, no
/// supercompression, pixel data in the sixteen bytes after the level index.
fn sample_container(pixels: &[u8; 16]) -> Vec<u8> {
    let mut buf = vec![0u8; 120];
    buf[..12].copy_from_slice(&MAGIC);
    put32(&mut buf, 12, RGBA8_SRGB_FORMAT); // vkFormat
    put32(&mut buf, 16, 1); // typeSize
    put32(&mut buf, 20, 2); // pixelWidth
    put32(&mut buf, 24, 2); // pixelHeight
    put32(&mut buf, 28, 0); // pixelDepth
    put32(&mut buf, 32, 0); // layerCount
    put32(&mut buf, 36, 1); // faceCount
    put32(&mut buf, 40, 1); // levelCount
    put32(&mut buf, 44, 0); // supercompressionScheme
    // dfd/kvd/sgd blocks: absent.
    // Level index: one entry at byte 80.
    put64(&mut buf, 80, 104); // byteOffset
    put64(&mut buf, 88, 16); // byteLength
    put64(&mut buf, 96, 16); // uncompressedByteLength
    buf[104..120].copy_from_slice(pixels);
    buf
}

fn sample_pixels() -> [u8; 16] {
    let mut pixels = [0u8; 16];
    for (i, p) in pixels.iter_mut().enumerate() {
        *p = (10 + i) as u8;
    }
    pixels
}

#[test]
fn well_formed_container_is_accepted() {
    let pixels = sample_pixels();
    let data = sample_container(&pixels);
    let texture = Texture::from_bytes(&data).unwrap();
    assert_eq!(texture.width, 2);
    assert_eq!(texture.height, 2);
    assert_eq!(texture.data, pixels.to_vec());
}

#[test]
fn wrong_pixel_format_names_the_expectation() {
    let mut data = sample_container(&sample_pixels());
    put32(&mut data, 12, 37); // VK_FORMAT_R8G8B8A8_UNORM: not sRGB
    assert_eq!(
        Texture::from_bytes(&data).unwrap_err(),
        TextureError::WrongFormat { found: Some(37) }
    );
}

#[test]
fn nonzero_pixel_depth_is_rejected() {
    let mut data = sample_container(&sample_pixels());
    put32(&mut data, 28, 3);
    assert_eq!(
        Texture::from_bytes(&data).unwrap_err(),
        TextureError::NonzeroDepth { depth: 3 }
    );
}

#[test]
fn supercompression_is_rejected() {
    let mut data = sample_container(&sample_pixels());
    put32(&mut data, 44, 1);
    assert_eq!(
        Texture::from_bytes(&data).unwrap_err(),
        TextureError::Supercompressed { scheme: 1 }
    );
}

#[test]
fn extra_mip_levels_are_rejected() {
    // Two declared levels, both present in the index and the data.
    let mut data = sample_container(&sample_pixels());
    data.resize(148, 0);
    put32(&mut data, 40, 2);
    // Rebuild the two-entry level index and the data behind it.
    put64(&mut data, 80, 128);
    put64(&mut data, 88, 16);
    put64(&mut data, 96, 16);
    put64(&mut data, 104, 144);
    put64(&mut data, 112, 4);
    put64(&mut data, 120, 4);
    assert_eq!(
        Texture::from_bytes(&data).unwrap_err(),
        TextureError::WrongLevelCount { count: 2 }
    );
}

#[test]
fn bad_magic_is_a_parse_error() {
    let mut data = sample_container(&sample_pixels());
    data[0] = 0;
    assert_eq!(Texture::from_bytes(&data).unwrap_err(), TextureError::Parse);
}

#[test]
fn truncated_container_is_a_parse_error() {
    let data = vec![0xABu8; 10];
    assert_eq!(Texture::from_bytes(&data).unwrap_err(), TextureError::Parse);
}

#[test]
fn overflowing_length_fields_are_malformed() {
    let mut data = sample_container(&sample_pixels());
    put32(&mut data, 48, u32::MAX); // dfdByteOffset
    put32(&mut data, 52, u32::MAX); // dfdByteLength
    assert!(!ktx2_precheck(&data));
    assert_eq!(Texture::from_bytes(&data).unwrap_err(), TextureError::Malformed);
}

#[test]
fn header_validation_checks_in_order() {
    let info = Ktx2Info {
        format: Some(RGBA8_SRGB_FORMAT),
        pixel_depth: 0,
        level_count: 1,
        supercompression: None,
        width: 4,
        height: 4,
        level0: vec![],
    };
    assert!(validate_header(&info).is_ok());
    let mut bad = info.clone();
    bad.format = None;
    assert_eq!(
        validate_header(&bad).unwrap_err(),
        TextureError::WrongFormat { found: None }
    );
}

#[test]
fn texture_library_loads_whole_catalog() {
    let blobs = vec![sample_container(&sample_pixels())];
    let lib = TextureLibrary::load_all(&blobs).unwrap();
    let texture = lib.get(TextureId::CrabTexture);
    assert_eq!((texture.width, texture.height), (2, 2));
}

#[test]
fn library_load_fails_on_any_bad_container() {
    let mut bad = sample_container(&sample_pixels());
    bad[0] = 0;
    assert!(TextureLibrary::load_all(&vec![bad]).is_err());
}

#[test]
fn texture_catalog_names_every_entry() {
    let catalog = texture_catalog();
    assert_eq!(catalog.len(), TEXTURE_COUNT);
    assert_eq!(catalog[0].0, TextureId::CrabTexture);
    assert_eq!(catalog[0].1, "texture/crabdance-seamless-tile.ktx2");
}
