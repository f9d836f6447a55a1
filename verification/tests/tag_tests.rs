use release_tagger::tag::{
    bump_version, checked_bump, confirm_message, format_vtag, is_valid_tag, parse_confirm,
    BumpType,
};
use release_tagger::version::Version;

#[test]
fn bump_version_patch() {
    let v = Version::new(1, 2, 3);
    let next = bump_version(&v, BumpType::Patch);
    assert_eq!(next, Version::new(1, 2, 4));
}

#[test]
fn bump_version_minor() {
    let v = Version::new(1, 2, 3);
    let next = bump_version(&v, BumpType::Minor);
    assert_eq!(next, Version::new(1, 3, 0));
}

#[test]
fn bump_version_major() {
    let v = Version::new(1, 2, 3);
    let next = bump_version(&v, BumpType::Major);
    assert_eq!(next, Version::new(2, 0, 0));
}

#[test]
fn format_vtag_prefixed() {
    assert_eq!(format_vtag("v1.0.0"), "v1.0.0");
}

#[test]
fn format_vtag_unprefixed() {
    assert_eq!(format_vtag("1.0.0"), "v1.0.0");
}

#[test]
fn is_valid_tag_good() {
    assert!(is_valid_tag("v1.2.3"));
}

#[test]
fn is_valid_tag_bad() {
    assert!(!is_valid_tag("not-a-tag"));
}

#[test]
fn bumptype_display() {
    assert_eq!(BumpType::Patch.to_string(), "Patch");
    assert_eq!(BumpType::Minor.to_string(), "Minor");
    assert_eq!(BumpType::Major.to_string(), "Major");
}

#[test]
fn parse_confirm_yes() {
    assert!(parse_confirm("y"));
    assert!(parse_confirm("Y"));
}

#[test]
fn parse_confirm_no() {
    assert!(!parse_confirm("n"));
    assert!(!parse_confirm(""));
    assert!(!parse_confirm("yes"));
}

#[test]
fn bump_from_zero() {
    let zero = Version::new(0, 0, 0);
    assert_eq!(bump_version(&zero, BumpType::Patch), Version::new(0, 0, 1));
    assert_eq!(bump_version(&zero, BumpType::Minor), Version::new(0, 1, 0));
    assert_eq!(bump_version(&zero, BumpType::Major), Version::new(1, 0, 0));
}

#[test]
fn bump_touches_nothing_before_the_bumped_number() {
    let v = Version::new(7, 8, 9);
    assert_eq!(bump_version(&v, BumpType::Patch), Version::new(7, 8, 10));
    assert_eq!(bump_version(&v, BumpType::Minor), Version::new(7, 9, 0));
    assert_eq!(bump_version(&v, BumpType::Major), Version::new(8, 0, 0));
}

#[test]
fn checked_bump_stops_at_the_largest_number() {
    let top = Version::new(u64::MAX, u64::MAX, u64::MAX);
    assert_eq!(checked_bump(&top, BumpType::Patch), None);
    assert_eq!(checked_bump(&top, BumpType::Minor), None);
    assert_eq!(checked_bump(&top, BumpType::Major), None);
    let v = Version::new(u64::MAX, 4, u64::MAX);
    assert_eq!(checked_bump(&v, BumpType::Minor), Some(Version::new(u64::MAX, 5, 0)));
    assert_eq!(
        checked_bump(&Version::new(1, 2, 3), BumpType::Patch),
        Some(Version::new(1, 2, 4))
    );
}

#[test]
fn format_vtag_is_idempotent() {
    for raw in ["1.0.0", "v1.0.0", "", "v", "vv1", "release", "V1.0.0", " v1"] {
        let once = format_vtag(raw);
        assert_eq!(format_vtag(&once), once);
    }
}

#[test]
fn format_vtag_edge_cases() {
    assert_eq!(format_vtag(""), "v");
    assert_eq!(format_vtag("v"), "v");
    assert_eq!(format_vtag("V1.0.0"), "vV1.0.0");
    assert_eq!(format_vtag("é"), "vé");
}

#[test]
fn canonical_version_text_is_a_valid_tag() {
    for text in ["0.0.0", "1.2.3", "10.20.30", "18446744073709551615.0.1"] {
        assert!(Version::parse(text).is_ok());
        assert!(is_valid_tag(&format_vtag(text)));
    }
}

#[test]
fn unprefixed_text_is_no_valid_tag() {
    assert!(Version::parse("1.2.3").is_ok());
    assert!(!is_valid_tag("1.2.3"));
    assert!(!is_valid_tag("0.0.0"));
    assert!(!is_valid_tag("V1.2.3"));
    assert!(!is_valid_tag(""));
}

#[test]
fn is_valid_tag_wants_exactly_three_numbers() {
    assert!(is_valid_tag("v0.0.0"));
    assert!(is_valid_tag("v18446744073709551615.18446744073709551615.18446744073709551615"));
    assert!(!is_valid_tag("v"));
    assert!(!is_valid_tag("v1"));
    assert!(!is_valid_tag("v1.2"));
    assert!(!is_valid_tag("v1.2.3.4"));
    assert!(!is_valid_tag("v1.2.3 "));
    assert!(!is_valid_tag(" v1.2.3"));
    assert!(!is_valid_tag("vv1.2.3"));
    assert!(!is_valid_tag("v01.2.3"));
    assert!(!is_valid_tag("v1.2.x"));
    assert!(!is_valid_tag("v1..3"));
    assert!(!is_valid_tag("v1.2.3-rc1"));
    assert!(!is_valid_tag("v1.2.3+build"));
    assert!(!is_valid_tag("v18446744073709551616.0.0"));
}

#[test]
fn parse_confirm_trims_white_space() {
    assert!(parse_confirm(" y"));
    assert!(parse_confirm("Y "));
    assert!(parse_confirm("\ty\r\n"));
    assert!(parse_confirm("\u{a0}y\u{3000}"));
    assert!(!parse_confirm("y y"));
    assert!(!parse_confirm("yy"));
    assert!(!parse_confirm(" "));
    assert!(!parse_confirm("N"));
    assert!(!parse_confirm("no"));
    assert!(!parse_confirm("Yes"));
    assert!(!parse_confirm("ｙ"));
}

#[test]
fn confirm_message_names_tag_and_branch() {
    assert_eq!(
        confirm_message("v1.2.3", "main"),
        "Create tag 'v1.2.3' on branch 'main'? (y/N):"
    );
}
