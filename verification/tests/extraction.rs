use just_merge::text::ParseIntErrorKind;
use just_merge::{extract_pid_and_mid, path_start_is_valid, ExtractionErr};

#[test]
fn extracts_pid_and_mid_from_https_url() {
    let r = extract_pid_and_mid(
        "https://gitlab.example.com/group/project/-/merge_requests/42",
        "gitlab.example.com",
    );
    match r {
        Ok((pid, mid)) => {
            assert_eq!(pid, "group/project");
            assert_eq!(mid, 42);
        }
        Err(e) => panic!("unexpected error {:?}", e),
    }
}

#[test]
fn extracts_without_scheme_and_with_query() {
    let (pid, mid) = extract_pid_and_mid(
        "gitlab.example.com/team/app/-/merge_requests/7?tab=diffs&x=1",
        "gitlab.example.com",
    )
    .unwrap();
    assert_eq!(pid, "team/app");
    assert_eq!(mid, 7);
}

#[test]
fn leading_plus_is_accepted_in_mid() {
    let (pid, mid) =
        extract_pid_and_mid("https://g.io/p/-/merge_requests/+15", "g.io").unwrap();
    assert_eq!(pid, "p");
    assert_eq!(mid, 15);
}

#[test]
fn text_after_the_first_marker_is_the_mid() {
    match extract_pid_and_mid("https://g.io/a/-/merge_requests/3/-/merge_requests/4", "g.io") {
        Err(ExtractionErr::InvalidMid { mid, error }) => {
            assert_eq!(mid, "3/-/merge_requests/4");
            assert_eq!(error, ParseIntErrorKind::InvalidDigit);
        }
        other => panic!("unexpected {:?}", other),
    }
}

#[test]
fn domain_is_followed_by_any_single_byte() {
    let (pid, mid) =
        extract_pid_and_mid("https://gitlab.comXgroup/-/merge_requests/9", "gitlab.com").unwrap();
    assert_eq!(pid, "group");
    assert_eq!(mid, 9);
}

#[test]
fn other_domain_is_refused() {
    match extract_pid_and_mid("https://github.com/a/b/-/merge_requests/1", "gitlab.com") {
        Err(ExtractionErr::DomainNotMatch { domain }) => assert_eq!(domain, "gitlab.com"),
        other => panic!("unexpected {:?}", other),
    }
}

#[test]
fn missing_marker_is_refused() {
    match extract_pid_and_mid("https://gitlab.com/a/b/-/issues/1", "gitlab.com") {
        Err(ExtractionErr::PatternNotRecognized { pattern }) => {
            assert_eq!(pattern, "/-/merge_requests/")
        }
        other => panic!("unexpected {:?}", other),
    }
}

#[test]
fn non_numeric_mid_is_refused_with_the_whole_rest() {
    match extract_pid_and_mid("https://gitlab.com/a/-/merge_requests/12x?y=1", "gitlab.com") {
        Err(ExtractionErr::InvalidMid { mid, error }) => {
            assert_eq!(mid, "12x?y=1");
            assert_eq!(error, ParseIntErrorKind::InvalidDigit);
        }
        other => panic!("unexpected {:?}", other),
    }
}

#[test]
fn empty_mid_is_refused() {
    match extract_pid_and_mid("https://gitlab.com/a/-/merge_requests/?x", "gitlab.com") {
        Err(ExtractionErr::InvalidMid { mid, error }) => {
            assert_eq!(mid, "?x");
            assert_eq!(error, ParseIntErrorKind::Empty);
        }
        other => panic!("unexpected {:?}", other),
    }
}

#[test]
fn too_large_mid_is_refused() {
    match extract_pid_and_mid(
        "https://gitlab.com/a/-/merge_requests/18446744073709551616",
        "gitlab.com",
    ) {
        Err(ExtractionErr::InvalidMid { mid, error }) => {
            assert_eq!(mid, "18446744073709551616");
            assert_eq!(error, ParseIntErrorKind::PosOverflow);
        }
        other => panic!("unexpected {:?}", other),
    }
    let (_, mid) = extract_pid_and_mid(
        "https://gitlab.com/a/-/merge_requests/18446744073709551615",
        "gitlab.com",
    )
    .unwrap();
    assert_eq!(mid, u64::MAX);
}

#[test]
fn minus_sign_is_an_invalid_digit() {
    match extract_pid_and_mid("https://gitlab.com/a/-/merge_requests/-", "gitlab.com") {
        Err(ExtractionErr::InvalidMid { error, .. }) => {
            assert_eq!(error, ParseIntErrorKind::InvalidDigit)
        }
        other => panic!("unexpected {:?}", other),
    }
}

#[test]
fn path_start_is_checked() {
    assert!(!path_start_is_valid("https://gitlab.com", "gitlab.com"));
    assert!(!path_start_is_valid("gitlab.comé/a", "gitlab.com"));
    assert!(path_start_is_valid("https://gitlab.com/a", "gitlab.com"));
    assert!(path_start_is_valid("https://other.org", "gitlab.com"));
}

#[test]
fn refusal_messages() {
    let e = extract_pid_and_mid("https://x.org/a/-/merge_requests/1", "gitlab.com").unwrap_err();
    assert_eq!(e.message(), "invalid url, expect domain is gitlab.com");
    let e = extract_pid_and_mid("https://gitlab.com/a/b", "gitlab.com").unwrap_err();
    assert_eq!(e.message(), "pattern not recognized: /-/merge_requests/");
    let e = extract_pid_and_mid("https://gitlab.com/a/-/merge_requests/q1", "gitlab.com").unwrap_err();
    assert_eq!(e.message(), "could not parse q1 into a numeric mid: invalid digit found in string");
    let e = extract_pid_and_mid("https://gitlab.com/a/-/merge_requests/", "gitlab.com").unwrap_err();
    assert_eq!(e.message(), "could not parse  into a numeric mid: cannot parse integer from empty string");
    let e = extract_pid_and_mid("https://gitlab.com/a/-/merge_requests/99999999999999999999", "gitlab.com")
        .unwrap_err();
    assert_eq!(
        e.message(),
        "could not parse 99999999999999999999 into a numeric mid: number too large to fit in target type"
    );
    assert_eq!(ExtractionErr::MissingPidOrMid.message(), "project or merge request id not found");
}

#[test]
fn parse_error_descriptions_match_std() {
    for (text, kind) in [
        ("", ParseIntErrorKind::Empty),
        ("x", ParseIntErrorKind::InvalidDigit),
        ("99999999999999999999", ParseIntErrorKind::PosOverflow),
    ] {
        let std_err = text.parse::<u64>().unwrap_err();
        assert_eq!(std_err.to_string(), kind.description());
    }
}

#[test]
fn mid_reading_agrees_with_std_parse() {
    let samples = [
        "0", "7", "+7", "-7", "+", "-", "", "007", "12a", "a12", "1 2", " 1", "٣", "1٣",
        "18446744073709551615", "18446744073709551616", "+18446744073709551615",
        "99999999999999999999x", "x99999999999999999999", "1844674407370955161a",
    ];
    for text in samples {
        let url = format!("https://gitlab.com/g/p/-/merge_requests/{}", text);
        let ours = extract_pid_and_mid(&url, "gitlab.com");
        match (text.parse::<u64>(), ours) {
            (Ok(n), Ok((pid, mid))) => {
                assert_eq!(pid, "g/p");
                assert_eq!(mid, n, "text {:?}", text);
            }
            (Err(e), Err(ExtractionErr::InvalidMid { mid, error })) => {
                assert_eq!(mid, text);
                assert_eq!(e.to_string(), error.description(), "text {:?}", text);
            }
            (std_result, ours) => panic!("text {:?}: std {:?}, ours {:?}", text, std_result, ours),
        }
    }
}
