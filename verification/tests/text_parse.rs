use screencrab::text::{decimal_string, signed_string, chars_of, string_of, same_text};
use screencrab::parse::{parse_i32_chars, trim_chars, split_chars, replace_chars};
use screencrab::area::{parse_area, read_area, Area};

fn chars(s: &str) -> Vec<char> {
    s.chars().collect()
}

#[test]
fn decimal_writes_numbers() {
    assert_eq!(decimal_string(0), "0");
    assert_eq!(decimal_string(7), "7");
    assert_eq!(decimal_string(12345), "12345");
    assert_eq!(decimal_string(u64::MAX), u64::MAX.to_string());
}

#[test]
fn signed_writes_numbers() {
    assert_eq!(signed_string(0), "0");
    assert_eq!(signed_string(-5), "-5");
    assert_eq!(signed_string(1920), "1920");
    assert_eq!(signed_string(i64::MIN), i64::MIN.to_string());
    assert_eq!(signed_string(i64::MAX), i64::MAX.to_string());
}

#[test]
fn chars_round_trip() {
    let v = chars_of("h\u{e9}llo \u{1f980}");
    assert_eq!(v, chars("h\u{e9}llo \u{1f980}"));
    assert_eq!(string_of(&v), "h\u{e9}llo \u{1f980}");
    assert!(same_text("abc", "abc"));
    assert!(!same_text("abc", "abd"));
    assert!(!same_text("abc", "ab"));
}

#[test]
fn parse_i32_reads_like_std() {
    for t in ["0", "12", "-12", "+7", "-0", "007", "2147483647", "-2147483648", "2147483648", "-2147483649",
        "", "-", "+", "1a", " 1", "--1", "+-1", "99999999999999999999", "\u{661}"] {
        assert_eq!(parse_i32_chars(&chars(t)), t.parse::<i32>().ok(), "reading {:?}", t);
    }
}

#[test]
fn trim_removes_unicode_white_space() {
    for t in ["", "  ", " a ", "\t\n x y \r", "\u{3000}z\u{a0}", "abc", "\u{85}q\u{2029}"] {
        assert_eq!(trim_chars(&chars(t)), chars(t.trim()), "trimming {:?}", t);
    }
}

#[test]
fn split_gives_std_pieces() {
    for t in ["", ",", "a", "a,b", ",a,", "1, 2,3 ,4,5"] {
        let mine: Vec<Vec<char>> = split_chars(&chars(t), ',');
        let std: Vec<Vec<char>> = t.split(',').map(chars).collect();
        assert_eq!(mine, std, "splitting {:?}", t);
    }
}

#[test]
fn replace_replaces_every_tilde() {
    let r = replace_chars(&chars("~/a~b"), '~', &chars("/home/u"));
    assert_eq!(r, chars("/home/u/a/home/ub"));
    assert_eq!(replace_chars(&chars("none"), '~', &chars("x")), chars("none"));
}

#[test]
fn area_is_read_from_four_numbers() {
    assert_eq!(parse_area("10,20,300,400"), Some(Area { x: 10, y: 20, width: 300, height: 400 }));
    assert_eq!(parse_area(" 1 , -2,3\t,4 "), Some(Area { x: 1, y: -2, width: 3, height: 4 }));
    assert_eq!(parse_area("1,2,3,4,junk"), Some(Area { x: 1, y: 2, width: 3, height: 4 }));
}

#[test]
fn area_with_too_few_or_bad_pieces_is_refused() {
    assert_eq!(parse_area("1,2,3"), None);
    assert_eq!(parse_area(""), None);
    assert_eq!(parse_area("1,2,3,x"), None);
    assert_eq!(parse_area("1.5,2,3,4"), None);
    assert_eq!(parse_area("1,2,3,99999999999"), None);
}

#[test]
fn well_formed_area_is_read() {
    assert_eq!(read_area("10,20,300,200"), Area { x: 10, y: 20, width: 300, height: 200 });
    assert_eq!(read_area(" 0, 5 ,7,8,9"), Area { x: 0, y: 5, width: 7, height: 8 });
}
