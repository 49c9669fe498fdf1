use clima::cli::read_launch_args;
use clima::errors::ProgramError;

fn owned(x: &str) -> Option<String> {
    Some(x.to_string())
}

#[test]
fn missing_target_yields_no_target_provided() {
    // a missing positional target fails the same way whatever else is set
    let flag_cases = [
        (false, None),
        (true, None),
        (false, owned("40")),
        (true, owned("abc")),
    ];
    for (no_scroll, width) in flag_cases {
        let r = read_launch_args(None, false, false, no_scroll, width);
        assert!(matches!(r, Err(ProgramError::NoTargetProvided)));
    }
    // even contradictory filesystem facts cannot mask the missing target
    let r = read_launch_args(None, true, true, false, None);
    assert!(matches!(r, Err(ProgramError::NoTargetProvided)));
}

#[test]
fn nonexistent_target_yields_target_not_found_with_path() {
    let r = read_launch_args(owned("no/such.md"), false, false, false, None);
    match r {
        Err(ProgramError::TargetNotFound { path }) => assert_eq!(path, "no/such.md"),
        _ => panic!("expected TargetNotFound"),
    }
    // the not-found check comes before the directory check
    let r = read_launch_args(owned("ghost"), false, true, true, owned("7"));
    match r {
        Err(ProgramError::TargetNotFound { path }) => assert_eq!(path, "ghost"),
        _ => panic!("expected TargetNotFound"),
    }
}

#[test]
fn directory_target_yields_target_not_regular_file_with_path() {
    let r = read_launch_args(owned("docs/"), true, true, false, None);
    match r {
        Err(ProgramError::TargetNotRegularFile { path }) => assert_eq!(path, "docs/"),
        _ => panic!("expected TargetNotRegularFile"),
    }
}

#[test]
fn valid_target_yields_config_with_given_values() {
    let r = read_launch_args(owned("doc.md"), true, false, true, owned("40"));
    match r {
        Ok(args) => {
            assert_eq!(args.target, "doc.md");
            assert!(args.no_scroll);
            assert_eq!(args.width, 40);
        }
        Err(_) => panic!("expected a launch configuration"),
    }
    let r = read_launch_args(owned("doc.md"), true, false, false, None);
    match r {
        Ok(args) => {
            assert_eq!(args.target, "doc.md");
            assert!(!args.no_scroll);
            assert_eq!(args.width, 0);
        }
        Err(_) => panic!("expected a launch configuration"),
    }
}

#[test]
fn malformed_or_absent_width_resolves_to_zero() {
    // malformed widths are silently ignored, never an error
    let malformed = ["", "abc", "12x", "x12", "-3", " 7", "7 ", "+", "++1", "4.5"];
    for w in malformed {
        let r = read_launch_args(owned("doc.md"), true, false, false, owned(w));
        match r {
            Ok(args) => assert_eq!(args.width, 0, "width string {:?}", w),
            Err(_) => panic!("a malformed width must not be rejected"),
        }
    }
}

#[test]
fn numeric_widths_parse_as_the_standard_parse_does() {
    let cases = [
        ("0", 0usize),
        ("7", 7),
        ("+7", 7),
        ("007", 7),
        ("40", 40),
        ("120", 120),
    ];
    for (w, expected) in cases {
        let r = read_launch_args(owned("doc.md"), true, false, false, owned(w));
        match r {
            Ok(args) => assert_eq!(args.width, expected, "width string {:?}", w),
            Err(_) => panic!("a numeric width must not be rejected"),
        }
    }
}

#[test]
fn width_overflow_resolves_to_zero() {
    let max = format!("{}", usize::MAX);
    let r = read_launch_args(owned("doc.md"), true, false, false, Some(max));
    match r {
        Ok(args) => assert_eq!(args.width, usize::MAX),
        Err(_) => panic!("the largest width must parse"),
    }
    let too_big = format!("{}0", usize::MAX);
    let r = read_launch_args(owned("doc.md"), true, false, false, Some(too_big));
    match r {
        Ok(args) => assert_eq!(args.width, 0),
        Err(_) => panic!("an overflowing width must resolve to 0, not fail"),
    }
}
