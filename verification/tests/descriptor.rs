use better_ept::package::Package;
use better_ept::package::PackageError;
use better_ept::package::BaseError;

#[test]
fn parse_four_segments() {
    let p = Package::from_underline_format("libfoo_1.2.0_alice_lib".to_string()).unwrap();
    assert_eq!(p.name, "libfoo");
    assert_eq!(p.version, "1.2.0");
    assert_eq!(p.author, "alice");
    assert_eq!(p.types, "lib");
}

#[test]
fn parse_ignores_extra_segments() {
    let p = Package::from_underline_format("a_b_c_d_extra".to_string()).unwrap();
    assert_eq!(p.name, "a");
    assert_eq!(p.version, "b");
    assert_eq!(p.author, "c");
    assert_eq!(p.types, "d");
}

#[test]
fn parse_two_segments_fails_with_exact_count() {
    let r = Package::from_underline_format("onlytwo_segments".to_string());
    match r {
        Err(PackageError::UnderlineFormatParseError { len, raw }) => {
            assert_eq!(len, 2);
            assert_eq!(raw, "onlytwo_segments");
        },
        _ => panic!("expected a format error"),
    }
}

#[test]
fn parse_single_segment_fails_with_count_one() {
    let r = Package::from_underline_format("onlysegment".to_string());
    match r {
        Err(PackageError::UnderlineFormatParseError { len, raw }) => {
            assert_eq!(len, 1);
            assert_eq!(raw, "onlysegment");
        },
        _ => panic!("expected a format error"),
    }
}

#[test]
fn parse_empty_string_fails_with_count_one() {
    let r = Package::from_underline_format(String::new());
    match r {
        Err(PackageError::UnderlineFormatParseError { len, raw }) => {
            assert_eq!(len, 1);
            assert_eq!(raw, "");
        },
        _ => panic!("expected a format error"),
    }
}

#[test]
fn parse_three_segments_fails() {
    let r = Package::from_underline_format("a_b_c".to_string());
    match r {
        Err(PackageError::UnderlineFormatParseError { len, .. }) => assert_eq!(len, 3),
        _ => panic!("expected a format error"),
    }
}

#[test]
fn parse_trailing_delimiter_gives_empty_segment() {
    let p = Package::from_underline_format("a_b_c_".to_string()).unwrap();
    assert_eq!(p.name, "a");
    assert_eq!(p.version, "b");
    assert_eq!(p.author, "c");
    assert_eq!(p.types, "");
}

#[test]
fn format_joins_in_canonical_order() {
    let p = Package {
        name: "libfoo".to_string(),
        author: "alice".to_string(),
        version: "1.2.0".to_string(),
        types: "lib".to_string(),
    };
    assert_eq!(p.to_underline_format().unwrap(), "libfoo_1.2.0_alice_lib");
}

#[test]
fn round_trip_preserves_fields() {
    let p = Package {
        name: "pkg".to_string(),
        author: "bob".to_string(),
        version: "0.9".to_string(),
        types: "bin".to_string(),
    };
    let s = p.to_underline_format().unwrap();
    let q = Package::from_underline_format(s).unwrap();
    assert_eq!(q.name, p.name);
    assert_eq!(q.version, p.version);
    assert_eq!(q.author, p.author);
    assert_eq!(q.types, p.types);
}

#[test]
fn error_messages() {
    let e = PackageError::UnderlineFormatParseError { len: 1, raw: "x".to_string() };
    assert_eq!(e.message(), "Underline Format ParseError!");
    assert_eq!(PackageError::UrlError.message(), "Url ParseError!");
    assert_eq!(
        (PackageError::NetworkError { status: 500 }).message(),
        "Network Request Error!"
    );
    assert_eq!(BaseError::OtherError().message(), "Other Error!");
    assert_eq!(BaseError::Unknown.message(), "Unknown Error!");
}
