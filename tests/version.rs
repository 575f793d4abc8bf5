use centy_installer::error::InstallerError;
use centy_installer::version::Version;

#[test]
fn test_version_parse() {
    let v = Version::parse("1.2.3").unwrap();
    assert_eq!(v.major, 1);
    assert_eq!(v.minor, 2);
    assert_eq!(v.patch, 3);
    assert_eq!(v.prerelease, None);

    let v = Version::parse("v1.2.3-beta.1").unwrap();
    assert_eq!(v.major, 1);
    assert_eq!(v.minor, 2);
    assert_eq!(v.patch, 3);
    assert_eq!(v.prerelease, Some("beta.1".to_string()));
}

#[test]
fn test_version_ordering() {
    let v1 = Version::parse("1.0.0").unwrap();
    let v2 = Version::parse("1.0.1").unwrap();
    let v3 = Version::parse("1.1.0").unwrap();
    let v4 = Version::parse("2.0.0").unwrap();

    assert!(v1 < v2);
    assert!(v2 < v3);
    assert!(v3 < v4);
}

#[test]
fn precedes_follows_numeric_order() {
    let v1 = Version::parse("1.0.0").unwrap();
    let v2 = Version::parse("1.0.1").unwrap();
    let v3 = Version::parse("1.1.0").unwrap();
    let v4 = Version::parse("2.0.0").unwrap();
    assert!(v1.precedes(&v2));
    assert!(v2.precedes(&v3));
    assert!(v3.precedes(&v4));
    assert!(!v4.precedes(&v1));
    assert!(!v1.precedes(&v1));
    assert!(Version::parse("10.0.0").unwrap().precedes(&Version::parse("10.0.0-a").unwrap()));
    assert!(Version::parse("1.0.0-alpha").unwrap().precedes(&Version::parse("1.0.0-beta").unwrap()));
    assert!(!Version::parse("1.0.0-beta").unwrap().precedes(&Version::parse("1.0.0-alpha").unwrap()));
}

#[test]
fn precedes_agrees_with_derived_order() {
    let texts = ["1.0.0", "1.0.0-rc", "1.0.0-alpha", "0.9.9", "1.2", "1.10.0"];
    for a in texts.iter() {
        for b in texts.iter() {
            let x = Version::parse(a).unwrap();
            let y = Version::parse(b).unwrap();
            assert_eq!(x.precedes(&y), x < y, "{} vs {}", a, b);
        }
    }
}

#[test]
fn two_field_version_has_patch_zero() {
    let v = Version::parse("3.4").unwrap();
    assert_eq!((v.major, v.minor, v.patch), (3, 4, 0));
    assert_eq!(v.prerelease, None);
}

#[test]
fn label_keeps_later_dashes() {
    let v = Version::parse("1.2-rc-1").unwrap();
    assert_eq!((v.major, v.minor, v.patch), (1, 2, 0));
    assert_eq!(v.prerelease, Some("rc-1".to_string()));
}

#[test]
fn only_one_leading_v_is_dropped() {
    assert!(Version::parse("vv1.2.3").is_err());
    assert!(Version::parse("v1.2.3").is_ok());
}

#[test]
fn malformed_versions_are_rejected() {
    for text in ["1", "1.2.3.4", "a.b.c", "", "v", "1.", ".1", "1..2", "1.2.x", "-1.2", "1.-2"] {
        match Version::parse(text) {
            Err(InstallerError::InvalidVersion(t)) => assert_eq!(t, text),
            other => panic!("{:?} gave {:?}", text, other),
        }
    }
}

#[test]
fn invalid_version_carries_the_input_text() {
    assert_eq!(
        Version::parse("v1").unwrap_err(),
        InstallerError::InvalidVersion("v1".to_string())
    );
}

#[test]
fn numbers_must_fit_in_32_bits() {
    let v = Version::parse("4294967295.0").unwrap();
    assert_eq!(v.major, 4294967295);
    assert!(Version::parse("4294967296.0").is_err());
    assert!(Version::parse("1.99999999999999999999").is_err());
}

#[test]
fn signs_are_not_part_of_a_number() {
    for text in ["+1.2.3", "1.+2.3", "1.2.+3", "+.2.3", " 1.2.3"] {
        assert_eq!(
            Version::parse(text),
            Err(InstallerError::InvalidVersion(text.to_string()))
        );
    }
}

#[test]
fn parse_then_render_is_canonical() {
    assert_eq!(Version::parse("v1.2").unwrap().to_string(), "1.2.0");
    assert_eq!(Version::parse("1.2.3").unwrap().to_string(), "1.2.3");
    assert_eq!(Version::parse("v10.20.30-beta.1").unwrap().to_string(), "10.20.30-beta.1");
    assert_eq!(Version::parse("0.1-x").unwrap().to_string(), "0.1.0-x");
    assert_eq!(Version::parse("007.08.9").unwrap().to_string(), "7.8.9");
}
