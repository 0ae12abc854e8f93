use bign_handheld_thumbnailer::content::{ContentKind, ThumbnailerFileParams};

#[test]
fn content_types_map_to_kinds() {
    for (t, k) in [
        ("application/x-nintendo-ds-rom", ContentKind::NdsRom),
        ("application/x-ctr-cia", ContentKind::N3dsCia),
        ("application/x-ctr-smdh", ContentKind::N3dsSmdh),
        ("application/x-ctr-3dsx", ContentKind::N3ds3dsx),
        ("application/x-nintendo-3ds-executable", ContentKind::N3ds3dsx),
        ("application/x-ctr-cxi", ContentKind::N3dsCxi),
        ("application/x-ctr-cci", ContentKind::N3dsCci),
        ("application/x-nintendo-3ds-rom", ContentKind::N3dsCci),
    ] {
        assert_eq!(ContentKind::from_content_type(t).unwrap(), k);
    }
}

#[test]
fn unknown_content_type_is_refused() {
    let e = ContentKind::from_content_type("image/png").unwrap_err();
    assert_eq!(e.content_type, "image/png");
    assert!(ContentKind::from_content_type("").is_err());
    assert!(ContentKind::from_content_type("application/x-ctr-ciax").is_err());
}

#[test]
fn output_target_respects_dry_run() {
    let p = ThumbnailerFileParams {
        is_dry_run: false,
        size: Some(128),
        input_file: "in.cia".to_string(),
        output_file: Some("out.png".to_string()),
    };
    assert_eq!(p.output_target(), Some(&"out.png".to_string()));
    let dry = ThumbnailerFileParams { is_dry_run: true, ..p };
    assert_eq!(dry.output_target(), None);
    let none = ThumbnailerFileParams { is_dry_run: false, size: None, input_file: "a".to_string(), output_file: None };
    assert_eq!(none.output_target(), None);
}
