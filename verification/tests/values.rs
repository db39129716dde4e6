use driver_test_cli_v2::bugcheck::{bugcheck_parameters, PanicLocation, BUGCHECK_RUST_CODE};
use driver_test_cli_v2::cli::{verbosity_filter, CommandLine};
use driver_test_cli_v2::details::Details;
use driver_test_cli_v2::duration::Duration;
use driver_test_cli_v2::numbers::{render, signed_to_string, unsigned_to_string};
use driver_test_cli_v2::pipeline::DEFAULT_CAPTURE_DURATION;
use driver_test_cli_v2::text::{
    chars_of, eq_ignore_ascii_case, is_whitespace, join, lines, replace, replace_char, same_text,
    starts_with_char, string_of, trim_str,
};

#[test]
fn white_space_matches_the_standard_library() {
    for n in 0..=0x10FFFF_u32 {
        if let Some(c) = char::from_u32(n) {
            assert_eq!(is_whitespace(c), c.is_whitespace(), "{n:x}");
        }
    }
}

#[test]
fn trimming_matches_the_standard_library() {
    for s in ["", " ", "a", " a ", "\t\r\n a b \u{3000}", "\u{a0}x\u{2003}"] {
        assert_eq!(trim_str(s), s.trim());
    }
}

#[test]
fn lines_match_the_standard_library() {
    for s in ["", "\n", "a", "a\n", "a\r\nb", "a\r\r\n\nb\r", "\r\n\r\n", "a\n\nb"] {
        let got: Vec<String> = lines(&chars_of(s)).iter().map(string_of).collect();
        let expected: Vec<&str> = s.lines().collect();
        assert_eq!(got, expected, "{s:?}");
    }
}

#[test]
fn replacing_matches_the_standard_library() {
    for s in ["", "a'b''c", "'", "etl.etl.et", "..etl.etletl", "aaa"] {
        assert_eq!(replace_char(s, '\'', "''"), s.replace('\'', "''"));
        assert_eq!(replace(s, ".etl", ".xml"), s.replace(".etl", ".xml"));
        assert_eq!(replace(s, "aa", "a"), s.replace("aa", "a"));
    }
}

#[test]
fn joining_matches_the_standard_library() {
    for parts in [vec![], vec!["a"], vec!["a", "b"], vec!["", "", "c"]] {
        let owned: Vec<String> = parts.iter().map(|p| p.to_string()).collect();
        assert_eq!(join(&owned, ", "), parts.join(", "));
    }
}

#[test]
fn ascii_case_matches_the_standard_library() {
    for (a, b) in [("inf", "INF"), ("inf", "inF "), ("", ""), ("É", "é"), ("[", "{"), ("k", "\u{212a}")] {
        assert_eq!(
            eq_ignore_ascii_case(&chars_of(a), &chars_of(b)),
            a.eq_ignore_ascii_case(b)
        );
    }
}

#[test]
fn comparing_texts() {
    assert!(same_text("ab", "ab"));
    assert!(!same_text("ab", "abc"));
    assert!(!same_text("ab", "ac"));
    assert!(starts_with_char("-x", '-'));
    assert!(!starts_with_char("", '-'));
}

#[test]
fn numbers_match_the_standard_library() {
    for n in [0, 1, 9, 10, 99, 100, 4_294_967_295, u64::MAX] {
        assert_eq!(unsigned_to_string(n), n.to_string());
        assert_eq!(render(n, 16, 0), format!("{n:x}"));
        assert_eq!(render(n, 10, 4), format!("{n:04}"));
    }
    for i in [0, 1, -1, 42, i32::MAX, i32::MIN] {
        assert_eq!(signed_to_string(i), i.to_string());
    }
}

#[test]
fn details_keep_the_last_value_of_a_key() {
    let mut d = Details::new();
    assert_eq!(d.get("a"), None);
    d.insert("a".into(), "1".into());
    d.insert("b".into(), "2".into());
    d.insert("a".into(), "3".into());
    assert_eq!(d.len(), 2);
    assert_eq!(d.get("a").unwrap(), "3");
    assert_eq!(d.get("b").unwrap(), "2");
    assert!(d.contains_key("b") && !d.contains_key("c"));
    assert_eq!(d.entry(0), (&"a".to_string(), &"3".to_string()));
    let copy = d.clone();
    d.insert("c".into(), "4".into());
    assert_eq!(copy.len(), 2);
}

#[test]
fn durations() {
    assert_eq!(Duration::from_millis(1500), Duration::new(1, 500_000_000));
    assert_eq!(Duration::from_secs(3).as_secs(), 3);
    assert_eq!(Duration::from_millis(1999).as_secs(), 1);
    assert_eq!(Duration::from_millis(1999).subsec_nanos(), 999_000_000);
    let (early, late) = (Duration::new(1, 900_000_000), Duration::new(3, 100_000_000));
    assert_eq!(late.since(&early), Duration::new(1, 200_000_000));
    assert_eq!(early.since(&late), Duration::zero());
    assert_eq!(late.since(&late), Duration::zero());
    assert!(late.reaches(&early) && late.reaches(&late) && !early.reaches(&late));
    for d in [Duration::zero(), late, Duration::from_millis(20), Duration::from_secs(120)] {
        let std = std::time::Duration::new(d.as_secs(), d.subsec_nanos());
        assert_eq!(d.debug_text(), format!("{std:?}"));
    }
}

fn line() -> CommandLine {
    CommandLine {
        driver_package: "pkg".into(),
        vm_name: None,
        skip_verify: false,
        skip_capture: true,
        capture_duration: DEFAULT_CAPTURE_DURATION,
        no_cleanup: true,
        output_dir: None,
    }
}

#[test]
fn command_line_defaults() {
    let config = line().configuration("out".into());
    assert_eq!(config.driver_package, "pkg");
    assert_eq!(config.vm_name, "driver-test-vm");
    assert_eq!(config.output_dir, "out");
    assert_eq!(config.capture_duration, 30);
    assert!(config.skip_capture && config.no_cleanup && !config.skip_verify);
    let credential = config.credential.unwrap();
    assert_eq!(credential.username, "DriverTestAdmin");
    assert_eq!(credential.password, "1234");
}

#[test]
fn command_line_choices() {
    let mut chosen = line();
    chosen.vm_name = Some("my-vm".into());
    chosen.output_dir = Some("logs".into());
    let config = chosen.configuration("out".into());
    assert_eq!(config.vm_name, "my-vm");
    assert_eq!(config.output_dir, "logs");
}

#[test]
fn verbosity_levels() {
    let levels: Vec<&str> = [0, 1, 2, 3, 255].iter().map(|v| verbosity_filter(*v)).collect();
    assert_eq!(levels, ["warn", "info", "debug", "trace", "trace"]);
}

#[test]
fn bugcheck_tells_where_the_panic_came_from() {
    assert_eq!(BUGCHECK_RUST_CODE.to_be_bytes(), *b"RUST");
    let location = PanicLocation { file_address: 4096, file_len: 10, line: 7, column: 3 };
    assert_eq!(bugcheck_parameters(Some(location)), (4096, 10, 7, 3));
    assert_eq!(bugcheck_parameters(None), (0, 0, 0, 0));
}
