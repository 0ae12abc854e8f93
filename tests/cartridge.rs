use bign_handheld_thumbnailer::nds::{
    extract_nds_banner, extract_palette_colors, generate_nds_icon, NDSIconVersion, NDSParsingError,
    PaletteColor,
};

const BANNER_AT: usize = 0x200;

/// A cartridge image whose banner at 0x200 has the given version, tile data and palette.
fn cartridge(version: u16, logo: &[u8], palette: &[u16; 16]) -> Vec<u8> {
    let mut data = vec![0u8; BANNER_AT + 0x240];
    data[0x68..0x6C].copy_from_slice(&(BANNER_AT as u32).to_le_bytes());
    data[BANNER_AT..BANNER_AT + 2].copy_from_slice(&version.to_le_bytes());
    data[BANNER_AT + 0x20..BANNER_AT + 0x220].copy_from_slice(logo);
    for (k, c) in palette.iter().enumerate() {
        let at = BANNER_AT + 0x220 + 2 * k;
        data[at..at + 2].copy_from_slice(&c.to_le_bytes());
    }
    data
}

fn sample_palette() -> [u16; 16] {
    let mut p = [0u16; 16];
    for (k, c) in p.iter_mut().enumerate() {
        *c = (k as u16) * 0x0421;
    }
    p
}

/// Palette index of pixel (x, y) for tile data whose byte i holds i % 256.
fn index_of(logo: &[u8], x: usize, y: usize) -> usize {
    let pos = ((y / 8) * 4 + x / 8) * 32 + (y % 8) * 4 + (x % 8) / 2;
    if x % 2 == 0 {
        (logo[pos] & 0x0F) as usize
    } else {
        (logo[pos] >> 4) as usize
    }
}

#[test]
fn palette_entry_zero_is_transparent() {
    let mut raw = [0u8; 0x20];
    raw[0] = 0xFF;
    raw[1] = 0x7F;
    raw[2] = 0x1F;
    let p = extract_palette_colors(&raw);
    assert_eq!(p.len(), 16);
    assert_eq!(p[0], PaletteColor::new(0xF8, 0xF8, 0xF8, 0x00));
    assert_eq!(p[1], PaletteColor::new(0xF8, 0, 0, 0xFF));
    assert_eq!(p[15], PaletteColor::new(0, 0, 0, 0xFF));
}

#[test]
fn tiles_map_bytes_to_pixel_pairs() {
    let mut logo = [0u8; 0x200];
    logo[0] = 0x21; // pixel (0,0) index 1, pixel (1,0) index 2
    logo[4] = 0x03; // pixel (0,1) index 3
    logo[32] = 0x40; // first byte of the second tile: pixel (9,0) index 4
    logo[128] = 0x05; // first byte of the second tile row: pixel (0,8) index 5
    let mut palette = Vec::new();
    for k in 0..16u8 {
        palette.push(PaletteColor::new(k, k * 2, k * 3, if k == 0 { 0 } else { 0xFF }));
    }
    let icon = generate_nds_icon(&logo, &palette);
    assert_eq!((icon.width, icon.height), (32, 32));
    assert_eq!(icon.rgba.len(), 32 * 32 * 4);
    let px = |x: usize, y: usize| icon.rgba[(y * 32 + x) * 4..(y * 32 + x) * 4 + 4].to_vec();
    assert_eq!(px(0, 0), vec![1, 2, 3, 0xFF]);
    assert_eq!(px(1, 0), vec![2, 4, 6, 0xFF]);
    assert_eq!(px(0, 1), vec![3, 6, 9, 0xFF]);
    assert_eq!(px(9, 0), vec![4, 8, 12, 0xFF]);
    assert_eq!(px(8, 0), vec![0, 0, 0, 0]);
    assert_eq!(px(0, 8), vec![5, 10, 15, 0xFF]);
    assert_eq!(px(31, 31), vec![0, 0, 0, 0]);
}

#[test]
fn banner_decodes_version_and_icon() {
    let logo: Vec<u8> = (0..0x200).map(|i| (i % 256) as u8).collect();
    let data = cartridge(0x0103, &logo, &sample_palette());
    let banner = extract_nds_banner(&data).unwrap();
    assert_eq!(banner.get_icon_version(), NDSIconVersion::DSi);
    let icon = banner.get_icon();
    assert_eq!((icon.width(), icon.height()), (32, 32));
    assert_eq!(icon.rgba().len(), 32 * 32 * 4);
    for y in 0..32 {
        for x in 0..32 {
            let k = index_of(&logo, x, y);
            let v = (k as u8) * 8;
            let alpha = if k == 0 { 0 } else { 0xFF };
            let at = (y * 32 + x) * 4;
            assert_eq!(&icon.rgba()[at..at + 4], &[v, v, v, alpha]);
        }
    }
}

#[test]
fn cartridge_alpha_follows_palette_index_zero() {
    let logo: Vec<u8> = (0..0x200).map(|i| ((i * 7) % 256) as u8).collect();
    let data = cartridge(0x0001, &logo, &sample_palette());
    let banner = extract_nds_banner(&data).unwrap();
    assert_eq!(banner.icon_version, NDSIconVersion::V1);
    for y in 0..32 {
        for x in 0..32 {
            let alpha = banner.icon.rgba[(y * 32 + x) * 4 + 3];
            assert_eq!(alpha == 0, index_of(&logo, x, y) == 0);
            assert!(alpha == 0 || alpha == 0xFF);
        }
    }
}

#[test]
fn every_known_banner_version_is_accepted() {
    let logo = [0u8; 0x200];
    for (tag, v) in [
        (0x0001, NDSIconVersion::V1),
        (0x0002, NDSIconVersion::V2),
        (0x0003, NDSIconVersion::V3),
        (0x0103, NDSIconVersion::DSi),
    ] {
        let data = cartridge(tag, &logo, &sample_palette());
        assert_eq!(extract_nds_banner(&data).unwrap().icon_version, v);
    }
}

#[test]
fn unknown_banner_version_is_refused() {
    let data = cartridge(0x0004, &[0u8; 0x200], &sample_palette());
    assert_eq!(
        extract_nds_banner(&data).unwrap_err(),
        NDSParsingError::UnknownOrInvalidNDSIconVersion(0x0004)
    );
}

#[test]
fn truncated_cartridge_header_is_out_of_range() {
    let data = vec![0u8; 0x6A];
    match extract_nds_banner(&data).unwrap_err() {
        NDSParsingError::ByteOutOfRange(e) => {
            assert_eq!((e.start, e.length, e.available), (0x68, 4, 0x6A));
        }
        other => panic!("unexpected {:?}", other),
    }
}

#[test]
fn truncated_banner_is_out_of_range() {
    let mut data = cartridge(0x0001, &[0u8; 0x200], &sample_palette());
    data.truncate(BANNER_AT + 0x23F);
    match extract_nds_banner(&data).unwrap_err() {
        NDSParsingError::ByteOutOfRange(e) => {
            assert_eq!((e.start, e.length, e.available), (BANNER_AT as u128, 0x240, BANNER_AT + 0x23F));
        }
        other => panic!("unexpected {:?}", other),
    }
}

#[test]
fn longer_palette_uses_first_sixteen_colours() {
    let mut logo = [0u8; 0x200];
    logo[0] = 0xF1;
    let mut palette = Vec::new();
    for k in 0..20u8 {
        palette.push(PaletteColor::new(k, k, k, 0xFF));
    }
    let icon = generate_nds_icon(&logo, &palette);
    assert_eq!(&icon.rgba[0..8], &[1, 1, 1, 0xFF, 15, 15, 15, 0xFF]);
    assert_eq!(icon.rgba.len(), 32 * 32 * 4);
}
