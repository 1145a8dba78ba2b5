use slint_snapshot::testing::name::NameRule;
use slint_snapshot::testing::{SnapshotMode, SnapshotName, SNAPSHOT_MODE_ENV};

#[test]
fn snapshot_names_use_a_portable_closed_grammar() {
    for name in [
        "",
        " ",
        "/absolute",
        "../escape",
        "a/../escape",
        "a//b",
        "a\\b",
        "CON",
        "nested/com1.txt",
        "trailing.",
        "already.png",
        "already.PNG",
        "中文",
    ] {
        assert!(
            SnapshotName::new(name).is_err(),
            "name should fail: {name:?}"
        );
    }
    let name = SnapshotName::new("settings/default.zh-CN.light").expect("portable name");
    assert_eq!(name.as_str(), "settings/default.zh-CN.light");
}

#[test]
fn parses_only_documented_modes() {
    assert_eq!("verify".parse(), Ok(SnapshotMode::Verify));
    assert_eq!("create-missing".parse(), Ok(SnapshotMode::CreateMissing));
    assert_eq!("accept".parse(), Ok(SnapshotMode::Accept));
    assert!("ACCEPT".parse::<SnapshotMode>().is_err());
    assert!("update".parse::<SnapshotMode>().is_err());
}

#[test]
fn name_errors_report_the_first_broken_rule() {
    let cases = [
        ("", NameRule::EmptyName, "the name must not be empty"),
        ("a//b", NameRule::EmptyComponent, "path components must not be empty"),
        (
            "/absolute",
            NameRule::EmptyComponent,
            "path components must not be empty",
        ),
        (
            "../escape",
            NameRule::InvalidStart,
            "each component must start with an ASCII letter, digit, or underscore",
        ),
        (
            "a\\b",
            NameRule::InvalidCharacter,
            "components may contain only ASCII letters, digits, '.', '_', and '-'",
        ),
        ("trailing.", NameRule::TrailingDot, "components must not end in '.'"),
        (
            "nested/com1.txt",
            NameRule::ReservedDeviceName,
            "components must not use a reserved Windows device name",
        ),
        (
            "Lpt9",
            NameRule::ReservedDeviceName,
            "components must not use a reserved Windows device name",
        ),
        (
            "dir/already.PnG",
            NameRule::PngExtension,
            "the logical name must not include the .png extension",
        ),
    ];
    for (input, rule, reason) in cases {
        let error = SnapshotName::new(input).expect_err("invalid name");
        assert_eq!(error.value(), input);
        assert_eq!(error.rule(), rule, "rule of {input:?}");
        assert_eq!(error.reason(), reason);
    }
}

#[test]
fn accepts_names_next_to_the_reserved_ones() {
    for name in ["COM10", "console", "com0", "_private", "a/b/c", "x.png.bak", "1-2_3.4"] {
        assert_eq!(SnapshotName::new(name).expect("valid").as_str(), name);
    }
    let parsed: SnapshotName = "card".parse().expect("parse");
    assert_eq!(parsed.clone(), parsed);
}

#[test]
fn mode_errors_keep_the_rejected_value_and_default_to_verify() {
    let error = SnapshotMode::parse("Verify").expect_err("case matters");
    assert_eq!(error.value(), "Verify");
    assert_eq!(SnapshotMode::default(), SnapshotMode::Verify);
    assert_eq!(SNAPSHOT_MODE_ENV, "SLINT_SNAPSHOT_MODE");
}
