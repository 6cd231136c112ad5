use std::str::FromStr;

use rhinostream::rate::{rate_text, Rate};
use rhinostream::text::{
    blank, characters, joined_text, parse_signed_u32, parse_unsigned, replace_first, same_text,
    split_text, trim, words_of, write_decimal, write_signed, IntError,
};
use rhinostream::Resolution;

const SAMPLES: [&str; 48] = [
    "", "0", "00", "7", "+7", "-7", "-0", "+", "-", "+-1", "1 ", " 1", "4294967295", "4294967296",
    "18446744073709551615", "18446744073709551616", "99999999999999999999999", "1_000", "0x10", "x",
    "1.5", ".5", "5.", ".", "1e3", "1E+3", "1e-3", "1e", "e1", "1.e1", ".e1", "1e1.0", "+.5e9", "inf",
    "-INF", "Infinity", "nan", "NaN", "nano", "infin", "1..2", "\u{0661}", "12\u{00e9}", "++1",
    "4294967296x", "x4294967296", "+4294967296", "18446744073709551616x",
];

#[test]
fn numbers_are_read_as_std_reads_them() {
    for s in SAMPLES {
        assert_eq!(parse_unsigned(s, u64::MAX).ok(), s.parse::<u64>().ok(), "{:?}", s);
        let n = parse_unsigned(s, u32::MAX as u64).ok();
        assert_eq!(n, s.parse::<u32>().ok().map(|n| n as u64), "{:?}", s);
        if let (Err(a), Err(b)) = (parse_unsigned(s, u32::MAX as u64), s.parse::<u32>()) {
            assert_eq!(a.to_text(), format!("{:?}", b), "{:?}", s);
        }
        let signed = s.parse::<i64>().ok().and_then(|n| u32::try_from(n).ok());
        assert_eq!(parse_signed_u32(s), signed, "{:?}", s);
    }
    assert_eq!(parse_unsigned("", 9), Err(IntError::Empty));
    assert_eq!(parse_unsigned("-", 9), Err(IntError::InvalidDigit));
    assert_eq!(parse_unsigned("10", 9), Err(IntError::PosOverflow));
}

#[test]
fn rates_are_those_that_std_reads() {
    for s in SAMPLES {
        assert_eq!(rate_text(s), s.parse::<f32>().is_ok(), "{:?}", s);
        match (Rate::parse(s), s.parse::<f32>()) {
            (Ok(r), Ok(_)) => assert_eq!(r.as_str(), s),
            (Err(a), Err(b)) => assert_eq!(a, b.to_string()),
            _ => panic!("{:?}", s),
        }
        assert_eq!(Rate::from_text(s).is_some(), s.parse::<f32>().is_ok());
    }
}

#[test]
fn numbers_are_written_as_std_writes_them() {
    for n in [0u64, 1, 9, 10, 99, 100, 4294967295, u64::MAX] {
        assert_eq!(write_decimal(n), n.to_string());
        assert_eq!(parse_unsigned(&write_decimal(n), u64::MAX), Ok(n));
    }
    for n in [0i32, 1, -1, 15, -20, i32::MAX, i32::MIN] {
        assert_eq!(write_signed(n), n.to_string());
    }
}

#[test]
fn white_space_is_that_of_std() {
    for s in [
        "", " ", "a", " a ", "\t\n a b \r\n", "\u{3000}x\u{2003}", "\u{00a0}", "\u{200b}", "\u{0085}y",
        "a \u{1680}", "\u{180e}z",
    ] {
        assert_eq!(trim(s), s.trim(), "{:?}", s);
        assert_eq!(blank(s), s.trim().is_empty(), "{:?}", s);
        let words: Vec<String> =
            s.split(" ").filter(|x| x.trim().len() != 0).map(|x| x.to_string()).collect();
        assert_eq!(words_of(s), words, "{:?}", s);
    }
}

#[test]
fn pieces_between_separators() {
    for s in ["", "x", "1x2", "x1x", "1xx2", "abc", "\u{00e9}x\u{4e2d}"] {
        let pieces: Vec<String> = s.split("x").map(|p| p.to_string()).collect();
        assert_eq!(split_text(s, 'x'), pieces, "{:?}", s);
        assert_eq!(split_text(s, 'x').join("x"), s);
    }
    assert_eq!(words_of("-r  1920x1080   -f 60 "), vec!["-r", "1920x1080", "-f", "60"]);
    assert_eq!(words_of("a\tb"), vec!["a\tb"]);
}

#[test]
fn strings_are_compared_and_joined() {
    assert!(same_text("", ""));
    assert!(same_text("h\u{00e9}vc", "h\u{00e9}vc"));
    assert!(!same_text("hevc", "hev"));
    assert!(!same_text("hevc", "hevC"));
    assert_eq!(joined_text("ab", "\u{00e9}"), "ab\u{00e9}");
    assert_eq!(characters("a\u{00e9}"), vec!['a', '\u{00e9}']);
}

#[test]
fn first_parts_are_replaced() {
    for (s, part, new) in [
        ("", "", "n"), ("", "a", "n"), ("aba", "a", "xy"), ("aab", "ab", ""), ("\u{00e9}b\u{00e9}", "b", "c"),
        ("abc", "abcd", "n"), ("abc", "", "n"), ("abc", "d", "n"), ("abab", "abab", "n"), ("aaab", "aab", "n"),
    ] {
        assert_eq!(replace_first(s, part, new), s.replacen(part, new, 1), "{:?} {:?}", s, part);
    }
}

#[test]
fn resolutions() {
    let r = |width, height| Ok(Resolution { width, height });
    assert_eq!(Resolution::from_str("1920x1080"), r(1920, 1080));
    assert_eq!(Resolution::from_str(" 0x4294967295\n"), r(0, 4294967295));
    assert_eq!(Resolution::from_str("+1x02"), r(1, 2));
    assert_eq!(Resolution::from_str("1920"), Err("expected WidthxHeight".to_string()));
    assert_eq!(Resolution::from_str("1x2x3"), Err("expected WidthxHeight".to_string()));
    let parse_error = |kind: &str| Err(format!("parse failed ParseIntError {{ kind: {} }}", kind));
    assert_eq!(Resolution::from_str(""), parse_error("Empty"));
    assert_eq!(Resolution::from_str("1920x"), parse_error("Empty"));
    assert_eq!(Resolution::from_str("1920 x1080"), parse_error("InvalidDigit"));
    assert_eq!(Resolution::from_str("1920X1080"), parse_error("InvalidDigit"));
    assert_eq!(Resolution::from_str("-1x2"), parse_error("InvalidDigit"));
    assert_eq!(Resolution::from_str("4294967296x1"), parse_error("PosOverflow"));
    assert_eq!(Resolution::from_str("4294967296xy"), parse_error("PosOverflow"));
    for (width, height) in [(0u32, 0u32), (1, 4294967295), (640, 480)] {
        let text = format!("{}x{}", width, height);
        assert_eq!(Resolution::from_str(&text), Ok(Resolution { width, height }));
    }
}
