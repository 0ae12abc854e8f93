use bign_handheld_thumbnailer::cia::{
    CIAContentChunkRecord, CIAContentIndex, CIAContentType, CIAMetaSize, CIASectionSizes,
    CIASignatureType, CIATitleMetadata,
};
use bign_handheld_thumbnailer::cci::CCIPartition;
use bign_handheld_thumbnailer::cxi::{
    ExeFSFileHeader, NCCHContentTypeFlags, NCCHCryptoMethodFlags, NCCHFlags, NCCHSecurityFlags,
};
use bign_handheld_thumbnailer::n3ds_errors::{
    CIAParsingError, CXIParsingError, FileMagicNotFound, N3DSParsingError,
};
use bign_handheld_thumbnailer::smdh::SMDHIcon;

const SMDH_SIZE: usize = 0x24C0 + 0x1200;

fn put(data: &mut Vec<u8>, at: usize, bytes: &[u8]) {
    if data.len() < at + bytes.len() {
        data.resize(at + bytes.len(), 0);
    }
    data[at..at + bytes.len()].copy_from_slice(bytes);
}

/// Writes an icon-metadata block at `at` whose colour k is `color(k)`.
fn put_smdh(data: &mut Vec<u8>, at: usize, color: &dyn Fn(usize) -> u16) {
    put(data, at, b"SMDH");
    for k in 0..0x900 {
        put(data, at + 0x24C0 + 2 * k, &color(k).to_le_bytes());
    }
}

/// Writes an NCCH container at `at` whose filesystem, one media unit in, holds the
/// icon file.
fn put_ncch(data: &mut Vec<u8>, at: usize, security: u8, crypto: u8) {
    put(data, at + 0x100, b"NCCH");
    put(data, at + 0x188, &[0, 0, 0, crypto, 0, 0x03, 0, security]);
    put(data, at + 0x1A0, &1u32.to_le_bytes());
    put(data, at + 0x1A4, &0x20u32.to_le_bytes());
    let exefs = at + 0x200;
    put(data, exefs + 0x10, b".code\0\0\0");
    put(data, exefs + 0x18, &0u32.to_le_bytes());
    put(data, exefs + 0x1C, &0x100u32.to_le_bytes());
    put(data, exefs + 0x20, b"icon\0\0\0\0");
    put(data, exefs + 0x28, &0x100u32.to_le_bytes());
    put(data, exefs + 0x2C, &(SMDH_SIZE as u32).to_le_bytes());
    put_smdh(data, exefs + 0x200 + 0x100, &|k| k as u16);
}

fn rgb565_of(rgba: &[u8]) -> u16 {
    ((rgba[0] as u16 >> 3) << 11) | ((rgba[1] as u16 >> 2) << 5) | (rgba[2] as u16 >> 3)
}

fn icon_of(r: Result<SMDHIcon, N3DSParsingError>) -> Vec<u8> {
    r.unwrap().get_large_icon().rgba
}

fn expected_icon() -> Vec<u8> {
    let mut data = Vec::new();
    put_smdh(&mut data, 0, &|k| k as u16);
    icon_of(SMDHIcon::from_smdh(&data, 0))
}

#[test]
fn smdh_icon_is_opaque_and_complete() {
    let mut data = Vec::new();
    put_smdh(&mut data, 0, &|k| (k * 37) as u16);
    let icon = SMDHIcon::from_smdh(&data, 0).unwrap().get_large_icon();
    assert_eq!((icon.width, icon.height), (48, 48));
    assert_eq!(icon.rgba.len(), 48 * 48 * 4);
    for p in 0..48 * 48 {
        assert_eq!(icon.rgba[4 * p + 3], 0xFF);
    }
}

#[test]
fn smdh_tiles_cover_every_colour_once() {
    let mut data = Vec::new();
    put_smdh(&mut data, 0, &|k| k as u16);
    let rgba = icon_of(SMDHIcon::from_smdh(&data, 0));
    let mut seen = vec![false; 48 * 48];
    for y in 0..48usize {
        for x in 0..48usize {
            let k = rgb565_of(&rgba[(y * 48 + x) * 4..]) as usize;
            let formula = (((y >> 3) * 6 + (x >> 3)) << 6)
                + ((x & 1) | ((y & 1) << 1) | ((x & 2) << 1) | ((y & 2) << 2) | ((x & 4) << 2) | ((y & 4) << 3));
            assert_eq!(k, formula);
            assert!(!seen[k]);
            seen[k] = true;
        }
    }
    assert!(seen.iter().all(|s| *s));
}

#[test]
fn smdh_first_tile_is_morton_ordered() {
    let mut data = Vec::new();
    put_smdh(&mut data, 0, &|k| k as u16);
    let rgba = icon_of(SMDHIcon::from_smdh(&data, 0));
    let at = |x: usize, y: usize| rgb565_of(&rgba[(y * 48 + x) * 4..]);
    assert_eq!(at(0, 0), 0);
    assert_eq!(at(1, 0), 1);
    assert_eq!(at(0, 1), 2);
    assert_eq!(at(2, 0), 4);
    assert_eq!(at(7, 7), 63);
    assert_eq!(at(8, 0), 64);
    assert_eq!(at(0, 8), 6 * 64);
    assert_eq!(at(47, 47), 2303);
}

#[test]
fn smdh_at_offset() {
    let mut data = vec![0u8; 0x30];
    put_smdh(&mut data, 0x30, &|k| k as u16);
    assert_eq!(icon_of(SMDHIcon::from_smdh(&data, 0x30)), expected_icon());
}

#[test]
fn smdh_magic_mismatch() {
    let mut data = Vec::new();
    put_smdh(&mut data, 0, &|_| 0);
    data[0..4].copy_from_slice(&[0xDE, 0xAD, 0xBE, 0xEF]);
    let e = SMDHIcon::from_smdh(&data, 0).unwrap_err();
    assert_eq!(
        e,
        N3DSParsingError::FileMagicNotFound(FileMagicNotFound::SMDHMagicNotFound([0xDE, 0xAD, 0xBE, 0xEF]))
    );
    if let N3DSParsingError::FileMagicNotFound(m) = e {
        assert_eq!(&m.expected(), b"SMDH");
        assert_eq!(m.found(), [0xDE, 0xAD, 0xBE, 0xEF]);
    }
}

#[test]
fn smdh_truncated_icon() {
    let mut data = Vec::new();
    put_smdh(&mut data, 0, &|_| 0);
    data.truncate(SMDH_SIZE - 1);
    match SMDHIcon::from_smdh(&data, 0).unwrap_err() {
        N3DSParsingError::ByteOutOfRange(e) => {
            assert_eq!((e.start, e.length, e.available), (0x24C0, 0x1200, SMDH_SIZE - 1));
        }
        other => panic!("unexpected {:?}", other),
    }
}

#[test]
fn smdh_empty_buffer() {
    match SMDHIcon::from_smdh(&[], 0).unwrap_err() {
        N3DSParsingError::ByteOutOfRange(e) => assert_eq!((e.start, e.length, e.available), (0, 4, 0)),
        other => panic!("unexpected {:?}", other),
    }
}

fn n3dsx(header_size: u16) -> Vec<u8> {
    let mut data = Vec::new();
    put(&mut data, 0, b"3DSX");
    put(&mut data, 4, &header_size.to_le_bytes());
    put(&mut data, 0x20, &0x40u32.to_le_bytes());
    put(&mut data, 0x24, &(SMDH_SIZE as u32).to_le_bytes());
    put_smdh(&mut data, 0x40, &|k| k as u16);
    data
}

#[test]
fn n3dsx_with_extended_header() {
    assert_eq!(icon_of(SMDHIcon::from_n3dsx(&n3dsx(0x2C))), expected_icon());
}

#[test]
fn n3dsx_without_extended_header() {
    assert_eq!(
        SMDHIcon::from_n3dsx(&n3dsx(32)).unwrap_err(),
        N3DSParsingError::N3DSXParsingError3DSXNoExtendedHeader(32)
    );
}

#[test]
fn n3dsx_magic_mismatch() {
    let mut data = n3dsx(0x2C);
    data[0..4].copy_from_slice(b"3DSY");
    assert_eq!(
        SMDHIcon::from_n3dsx(&data).unwrap_err(),
        N3DSParsingError::FileMagicNotFound(FileMagicNotFound::N3DSXMagicNotFound(*b"3DSY"))
    );
}

#[test]
fn ncch_decodes_icon_file() {
    let mut data = Vec::new();
    put_ncch(&mut data, 0, 0x04, 0x00);
    assert_eq!(icon_of(SMDHIcon::from_cxi(&data, 0)), expected_icon());
}

#[test]
fn ncch_at_offset() {
    let mut data = vec![0u8; 0x1000];
    put_ncch(&mut data, 0x1000, 0x04, 0x01);
    assert_eq!(icon_of(SMDHIcon::from_cxi(&data, 0x1000)), expected_icon());
}

#[test]
fn ncch_encrypted() {
    let mut data = Vec::new();
    put_ncch(&mut data, 0, 0x01, 0x00);
    assert_eq!(
        SMDHIcon::from_cxi(&data, 0).unwrap_err(),
        N3DSParsingError::CXIParsingError(CXIParsingError::FileEncrypted)
    );
}

#[test]
fn ncch_invalid_crypto_method() {
    let mut data = Vec::new();
    put_ncch(&mut data, 0, 0x04, 0x05);
    assert_eq!(
        SMDHIcon::from_cxi(&data, 0).unwrap_err(),
        N3DSParsingError::CXIParsingError(CXIParsingError::InvalidNCCHCryptoMethodFlags(0x05))
    );
}

#[test]
fn ncch_magic_mismatch() {
    let mut data = Vec::new();
    put_ncch(&mut data, 0, 0x04, 0x00);
    data[0x100..0x104].copy_from_slice(&[1, 2, 3, 4]);
    let e = SMDHIcon::from_cxi(&data, 0).unwrap_err();
    assert_eq!(e, N3DSParsingError::FileMagicNotFound(FileMagicNotFound::NCCHMagicNotFound([1, 2, 3, 4])));
    if let N3DSParsingError::FileMagicNotFound(m) = e {
        assert_eq!(&m.expected(), b"NCCH");
    }
}

#[test]
fn exefs_all_empty_slots() {
    let data = vec![0u8; 0x200];
    assert_eq!(
        SMDHIcon::from_exefs(&data, 0).unwrap_err(),
        N3DSParsingError::CXIParsingError(CXIParsingError::ExeFSIconFileNotFound)
    );
}

#[test]
fn exefs_name_must_be_exactly_icon() {
    let mut data = vec![0u8; 0x200];
    put(&mut data, 0, b"icons\0\0\0");
    put(&mut data, 0x10, b"ico\0\0\0\0\0");
    put(&mut data, 0x20, b"banner\0\0");
    assert_eq!(
        SMDHIcon::from_exefs(&data, 0).unwrap_err(),
        N3DSParsingError::CXIParsingError(CXIParsingError::ExeFSIconFileNotFound)
    );
    put(&mut data, 0x90, b"icon\0\0\0\0");
    put(&mut data, 0x98, &0x40u32.to_le_bytes());
    put_smdh(&mut data, 0x240, &|k| k as u16);
    assert_eq!(icon_of(SMDHIcon::from_exefs(&data, 0)), expected_icon());
}

#[test]
fn exefs_truncated_table() {
    let data = vec![0u8; 0x9F];
    match SMDHIcon::from_exefs(&data, 0).unwrap_err() {
        N3DSParsingError::ByteOutOfRange(e) => assert_eq!((e.start, e.length), (0, 0xA0)),
        other => panic!("unexpected {:?}", other),
    }
}

#[test]
fn exefs_file_header_reads_slot() {
    assert!(ExeFSFileHeader::from_bytes(&[0u8; 16]).is_none());
    let mut slot = [0u8; 16];
    slot[..4].copy_from_slice(b"icon");
    slot[8..12].copy_from_slice(&0x1234u32.to_le_bytes());
    slot[12..16].copy_from_slice(&0x36C0u32.to_le_bytes());
    let h = ExeFSFileHeader::from_bytes(&slot).unwrap();
    assert_eq!(h.file_name(), b"icon");
    assert_eq!(h.file_offset(), 0x1234);
    assert_eq!(h.file_size(), 0x36C0);
    let full = ExeFSFileHeader::from_bytes(b"abcdefgh\0\0\0\0\0\0\0\0").unwrap();
    assert_eq!(full.file_name(), b"abcdefgh");
}

#[test]
fn ncch_flags_from_bytes() {
    let f = NCCHFlags::try_from([0, 0, 0, 0x0B, 0, 0xFF, 0, 0xFF]).unwrap();
    assert_eq!(f.crypto_method, NCCHCryptoMethodFlags::New3DSArmLoaderChanged);
    assert_eq!(f.content_type, NCCHContentTypeFlags::from_bits_truncate(0x1F));
    assert_eq!(f.security, NCCHSecurityFlags::from_bits_truncate(0x27));
    assert!(f.security.is_not_encrypted());
    assert!(f.content_type.is_cxi());
    assert!(!f.content_type.is_cfa());
    assert!(NCCHContentTypeFlags::from_bits_truncate(0x01).is_cfa());
    assert!(!NCCHSecurityFlags::from_bits_truncate(0x03).is_not_encrypted());
}

fn cci(first_partition_units: u32) -> Vec<u8> {
    let mut data = Vec::new();
    put(&mut data, 0x100, b"NCSD");
    put(&mut data, 0x120, &first_partition_units.to_le_bytes());
    put(&mut data, 0x124, &0x40u32.to_le_bytes());
    put(&mut data, 0x160, &[0u8; 0x20]);
    data
}

#[test]
fn disc_image_decodes_first_partition() {
    let mut data = cci(0x10);
    put_ncch(&mut data, 0x2000, 0x04, 0x00);
    assert_eq!(icon_of(SMDHIcon::from_cci(&data)), expected_icon());
    assert_eq!(icon_of(SMDHIcon::from_cxi(&data, 0x2000)), expected_icon());
}

#[test]
fn disc_image_partition_at_zero_matches_container_parser() {
    let mut data = cci(0);
    let len = data.len().max(0x800) as u32;
    data.resize(len as usize, 0);
    put(&mut data, 0x124, &(len / 0x200).to_le_bytes());
    let via_disc = SMDHIcon::from_cci(&data).map(|i| i.get_large_icon().rgba);
    let direct = SMDHIcon::from_cxi(&data, 0).map(|i| i.get_large_icon().rgba);
    assert_eq!(via_disc, direct);
    assert_eq!(
        direct.unwrap_err(),
        N3DSParsingError::FileMagicNotFound(FileMagicNotFound::NCCHMagicNotFound(*b"NCSD"))
    );
}

#[test]
fn disc_image_magic_mismatch() {
    let mut data = cci(0x10);
    data[0x100..0x104].copy_from_slice(b"NCCH");
    let e = SMDHIcon::from_cci(&data).unwrap_err();
    assert_eq!(e, N3DSParsingError::FileMagicNotFound(FileMagicNotFound::NCSDMagicNotFound(*b"NCCH")));
    if let N3DSParsingError::FileMagicNotFound(m) = e {
        assert_eq!(&m.expected(), b"NCSD");
        assert_eq!(&m.found(), b"NCCH");
    }
}

#[test]
fn disc_image_truncated_table() {
    let mut data = cci(0x10);
    data.truncate(0x15F);
    match SMDHIcon::from_cci(&data).unwrap_err() {
        N3DSParsingError::ByteOutOfRange(e) => assert_eq!((e.start, e.length, e.available), (0x120, 0x40, 0x15F)),
        other => panic!("unexpected {:?}", other),
    }
}

#[test]
fn partition_entry_in_media_units() {
    let p = CCIPartition::from_bytes(&[0x01, 0x00, 0x00, 0x00, 0xFF, 0xFF, 0xFF, 0xFF]);
    assert_eq!(p.offset(), 0x200);
    assert_eq!(p.length(), 0xFFFF_FFFFu64 * 0x200);
}

fn cia_header(cert: u32, ticket: u32, tmd: u32, meta: u32, content: u64) -> Vec<u8> {
    let mut data = vec![0u8; 0x2040];
    put(&mut data, 0x08, &cert.to_le_bytes());
    put(&mut data, 0x0C, &ticket.to_le_bytes());
    put(&mut data, 0x10, &tmd.to_le_bytes());
    put(&mut data, 0x14, &meta.to_le_bytes());
    put(&mut data, 0x18, &content.to_le_bytes());
    data
}

#[test]
fn cia_section_offsets_are_padded_sums() {
    let data = cia_header(0x200, 0x140, 0x0C80, 0x3AC0, 0x1234);
    let sizes = CIASectionSizes::from_bytes(&data).unwrap();
    assert_eq!(sizes.meta_size, CIAMetaSize::Present);
    assert_eq!(sizes.tmd_offset(), 0x2040 + 0x200 + 0x140);
    assert_eq!(sizes.content_offset(), 0x2040 + 0x200 + 0x140 + 0x0C80);
    assert_eq!(sizes.meta_offset(), 0x2040 + 0x200 + 0x140 + 0x0C80 + 0x1240);
    let odd = CIASectionSizes::from_bytes(&cia_header(0x201, 0x1, 0x40, 0, 0)).unwrap();
    assert_eq!(odd.tmd_offset(), 0x2040 + 0x240 + 0x40);
    assert_eq!(odd.content_offset(), 0x2040 + 0x240 + 0x40 + 0x40);
    assert_eq!(odd.meta_offset(), odd.content_offset());
    let huge = CIASectionSizes::from_bytes(&cia_header(0, 0, 0, 0, u64::MAX)).unwrap();
    assert_eq!(huge.meta_offset(), 0x2040 + (u64::MAX as u128 + 1));
}

#[test]
fn cia_meta_section() {
    let mut data = cia_header(0x200, 0x140, 0x0C80, 0x3AC0, 0x1234);
    let meta = 0x2040 + 0x200 + 0x140 + 0x0C80 + 0x1240;
    put_smdh(&mut data, meta + 0x400, &|k| k as u16);
    assert_eq!(icon_of(SMDHIcon::from_cia(&data)), expected_icon());
    assert_eq!(icon_of(SMDHIcon::from_cia_meta(&data, meta as u128)), expected_icon());
}

#[test]
fn cia_meta_section_one_byte_off_fails() {
    let mut data = cia_header(0x200, 0x140, 0x0C80, 0x3AC0, 0x1234);
    let meta = 0x2040 + 0x200 + 0x140 + 0x0C80 + 0x1234;
    put_smdh(&mut data, meta + 0x400, &|k| k as u16);
    assert!(matches!(
        SMDHIcon::from_cia(&data).unwrap_err(),
        N3DSParsingError::FileMagicNotFound(FileMagicNotFound::SMDHMagicNotFound(_))
    ));
}

#[test]
fn cia_invalid_meta_size() {
    let data = cia_header(0x200, 0x140, 0x0C80, 0x1234, 0);
    assert_eq!(
        SMDHIcon::from_cia(&data).unwrap_err(),
        N3DSParsingError::CIAParsingError(CIAParsingError::MetaInvalidSize(0x1234))
    );
}

#[test]
fn cia_meta_size_values() {
    for (raw, m) in [
        (0u32, CIAMetaSize::Absent),
        (8, CIAMetaSize::CVerUSA),
        (0x200, CIAMetaSize::Dummy),
        (0x3AC0, CIAMetaSize::Present),
    ] {
        assert_eq!(CIAMetaSize::try_from(raw).unwrap(), m);
    }
}

const TMD_SIZE: u32 = 0x240 + 0x9C4 + 2 * 0x30;

/// Signature plus padding for a signature type tag.
fn signature_block(sig: u32) -> usize {
    match sig {
        0x0001_0000 | 0x0001_0003 => 0x23C,
        0x0001_0001 | 0x0001_0004 => 0x13C,
        0x0001_0002 | 0x0001_0005 => 0x7C,
        _ => 0x13C,
    }
}

/// A package without icon metadata whose title metadata lists two records.
fn cia_without_meta(first_index: u16, second_index: u16, second_type: u16, sig: u32) -> Vec<u8> {
    cia_with_content(first_index, second_index, second_type, sig, 0x04)
}

fn cia_with_content(first_index: u16, second_index: u16, second_type: u16, sig: u32, security: u8) -> Vec<u8> {
    let mut data = cia_header(0x200, 0x140, TMD_SIZE, 0, 0x4000);
    let tmd = 0x2040 + 0x200 + 0x140;
    put(&mut data, tmd, &sig.to_be_bytes());
    let header = tmd + signature_block(sig);
    put(&mut data, header + 0x9E, &2u16.to_be_bytes());
    let records = header + 0x9C4;
    put(&mut data, records, &7u32.to_be_bytes());
    put(&mut data, records + 4, &first_index.to_be_bytes());
    put(&mut data, records + 0x30, &8u32.to_be_bytes());
    put(&mut data, records + 0x30 + 4, &second_index.to_be_bytes());
    put(&mut data, records + 0x30 + 6, &second_type.to_be_bytes());
    put(&mut data, records + 0x30 + 8, &0x4000u64.to_be_bytes());
    put(&mut data, records + 0x30 + 0x10, &[0xAB; 0x20]);
    let content = tmd + ((TMD_SIZE as usize + 63) / 64) * 64;
    put_ncch(&mut data, content, security, 0x00);
    data
}

#[test]
fn cia_content_container_encrypted() {
    let data = cia_with_content(1, 0, 0, 0x0001_0004, 0x00);
    assert_eq!(
        SMDHIcon::from_cia(&data).unwrap_err(),
        N3DSParsingError::CIAParsingError(CIAParsingError::NoIconAvailable(CXIParsingError::FileEncrypted))
    );
}

#[test]
fn cia_content_container_bad_magic_is_unchanged() {
    let mut data = cia_with_content(1, 0, 0, 0x0001_0004, 0x04);
    let content = 0x2040 + 0x200 + 0x140 + ((TMD_SIZE as usize + 63) / 64) * 64;
    data[content + 0x100..content + 0x104].copy_from_slice(b"XXXX");
    assert_eq!(
        SMDHIcon::from_cia(&data).unwrap_err(),
        N3DSParsingError::FileMagicNotFound(FileMagicNotFound::NCCHMagicNotFound(*b"XXXX"))
    );
}

#[test]
fn cia_falls_back_to_main_content() {
    let data = cia_without_meta(1, 0, 0x4000, 0x0001_0004);
    assert_eq!(icon_of(SMDHIcon::from_cia(&data)), expected_icon());
}

#[test]
fn cia_title_metadata_records() {
    let data = cia_without_meta(1, 0, 0xFFFF, 0x0001_0004);
    let tmd = CIATitleMetadata::from_file(&data, 0x2040 + 0x200 + 0x140).unwrap();
    let records = tmd.content_chunk_records();
    assert_eq!(records.len(), 2);
    assert_eq!(records[0].content_id, 7);
    assert_eq!(records[0].content_index, CIAContentIndex::HomeMenuManual);
    assert_eq!(records[1].content_id, 8);
    assert_eq!(records[1].content_index, CIAContentIndex::MainContent);
    assert_eq!(records[1].content_type, CIAContentType::from_bits_truncate(0xC007));
    assert!(records[1].content_type.is_encrypted());
    assert_eq!(records[1].content_size, 0x4000);
    assert_eq!(records[1].sha256_hash, [0xAB; 0x20]);
}

#[test]
fn cia_main_content_encrypted() {
    let data = cia_without_meta(1, 0, 0x0001, 0x0001_0004);
    assert_eq!(
        SMDHIcon::from_cia(&data).unwrap_err(),
        N3DSParsingError::CIAParsingError(CIAParsingError::NoIconAvailable(CXIParsingError::FileEncrypted))
    );
}

#[test]
fn cia_without_main_content() {
    let data = cia_without_meta(1, 2, 0, 0x0001_0004);
    assert_eq!(
        SMDHIcon::from_cia(&data).unwrap_err(),
        N3DSParsingError::CIAParsingError(CIAParsingError::NoIconAvailable(CXIParsingError::NoCXIContent))
    );
}

#[test]
fn cia_invalid_content_index() {
    let data = cia_without_meta(3, 0, 0, 0x0001_0004);
    assert_eq!(
        SMDHIcon::from_cia(&data).unwrap_err(),
        N3DSParsingError::CIAParsingError(CIAParsingError::ContentIndexInvalidValue(3))
    );
}

#[test]
fn cia_invalid_signature_type() {
    let data = cia_without_meta(1, 0, 0, 0x0001_0006);
    assert_eq!(
        SMDHIcon::from_cia(&data).unwrap_err(),
        N3DSParsingError::CIAParsingError(CIAParsingError::SignatureTypeInvalidValue(0x0001_0006))
    );
}

#[test]
fn cia_truncated_header() {
    let data = vec![0u8; 0x1C];
    match SMDHIcon::from_cia(&data).unwrap_err() {
        N3DSParsingError::ByteOutOfRange(e) => assert_eq!((e.start, e.length, e.available), (0x18, 8, 0x1C)),
        other => panic!("unexpected {:?}", other),
    }
}

#[test]
fn signature_sizes() {
    for (raw, size, padding) in [
        (0x0001_0000u32, 0x200, 0x3C),
        (0x0001_0001, 0x100, 0x3C),
        (0x0001_0002, 0x3C, 0x40),
        (0x0001_0003, 0x200, 0x3C),
        (0x0001_0004, 0x100, 0x3C),
        (0x0001_0005, 0x3C, 0x40),
    ] {
        let t = CIASignatureType::try_from(raw).unwrap();
        assert_eq!((t.size(), t.padding_size()), (size, padding));
    }
}

#[test]
fn content_chunk_record_from_bytes() {
    let mut bytes = [0u8; 0x30];
    bytes[..4].copy_from_slice(&0x0102_0304u32.to_be_bytes());
    bytes[4..6].copy_from_slice(&2u16.to_be_bytes());
    bytes[6..8].copy_from_slice(&0x0002u16.to_be_bytes());
    bytes[8..16].copy_from_slice(&0x0A0B_0C0D_0E0F_1011u64.to_be_bytes());
    for (i, b) in bytes[0x10..].iter_mut().enumerate() {
        *b = i as u8;
    }
    let r = CIAContentChunkRecord::from_bytes(&bytes).unwrap();
    assert_eq!(r.content_id, 0x0102_0304);
    assert_eq!(r.content_index, CIAContentIndex::DlpChildContainer);
    assert!(!r.content_type.is_encrypted());
    assert_eq!(r.content_size, 0x0A0B_0C0D_0E0F_1011);
    assert_eq!(r.sha256_hash[31], 31);
    bytes[4..6].copy_from_slice(&9u16.to_be_bytes());
    assert_eq!(
        CIAContentChunkRecord::from_bytes(&bytes).unwrap_err(),
        CIAParsingError::ContentIndexInvalidValue(9)
    );
}

#[test]
fn cia_fallback_with_every_signature_type() {
    for sig in 0x0001_0000u32..=0x0001_0005 {
        let data = cia_without_meta(1, 0, 0, sig);
        assert_eq!(icon_of(SMDHIcon::from_cia(&data)), expected_icon());
    }
}

#[test]
fn cia_title_metadata_without_records() {
    let mut data = cia_without_meta(1, 0, 0, 0x0001_0004);
    let header = 0x2040 + 0x200 + 0x140 + 0x13C;
    put(&mut data, header + 0x9E, &0u16.to_be_bytes());
    let tmd = CIATitleMetadata::from_file(&data, 0x2040 + 0x200 + 0x140).unwrap();
    assert!(tmd.content_chunk_records().is_empty());
    assert_eq!(
        SMDHIcon::from_cia(&data).unwrap_err(),
        N3DSParsingError::CIAParsingError(CIAParsingError::NoIconAvailable(CXIParsingError::NoCXIContent))
    );
}

#[test]
fn cia_title_metadata_truncated_records() {
    let data = cia_without_meta(1, 0, 0, 0x0001_0004);
    let header = 0x2040 + 0x200 + 0x140 + 0x13C;
    let second = header + 0x9C4 + 0x30;
    let cut = &data[..second + 0x2F];
    match CIATitleMetadata::from_file(cut, 0x2040 + 0x200 + 0x140).unwrap_err() {
        N3DSParsingError::ByteOutOfRange(e) => {
            assert_eq!((e.start, e.length, e.available), (second as u128, 0x30, second + 0x2F));
        }
        other => panic!("unexpected {:?}", other),
    }
}

#[test]
fn cia_content_container_errors_pass_unchanged() {
    let mut data = cia_with_content(1, 0, 0, 0x0001_0004, 0x04);
    let content = 0x2040 + 0x200 + 0x140 + ((TMD_SIZE as usize + 63) / 64) * 64;
    data[content + 0x188 + 3] = 0x07;
    assert_eq!(
        SMDHIcon::from_cia(&data).unwrap_err(),
        N3DSParsingError::CXIParsingError(CXIParsingError::InvalidNCCHCryptoMethodFlags(0x07))
    );
    data[content + 0x188 + 3] = 0x00;
    let exefs = content + 0x200;
    data[exefs + 0x20..exefs + 0x24].copy_from_slice(b"logo");
    assert_eq!(
        SMDHIcon::from_cia(&data).unwrap_err(),
        N3DSParsingError::CXIParsingError(CXIParsingError::ExeFSIconFileNotFound)
    );
}

#[test]
fn cia_content_container_errors_pass_unchanged_from_tmd() {
    let mut data = cia_with_content(1, 0, 0, 0x0001_0004, 0x04);
    let tmd = 0x2040 + 0x200 + 0x140;
    let content = tmd + ((TMD_SIZE as usize + 63) / 64) * 64;
    data[content + 0x200 + 0x20..content + 0x200 + 0x24].copy_from_slice(b"logo");
    assert_eq!(
        SMDHIcon::from_cia_tmd(&data, tmd as u128, content as u128).unwrap_err(),
        N3DSParsingError::CXIParsingError(CXIParsingError::ExeFSIconFileNotFound)
    );
}
