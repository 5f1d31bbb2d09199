use tauri_map::decimal::{format_u16, parse_u16};

fn std_parse(s: &str) -> Option<u16> {
    s.parse::<u16>().ok()
}

#[test]
fn parse_reads_every_port() {
    for n in 0..=u16::MAX {
        assert_eq!(parse_u16(&n.to_string()), Some(n));
    }
}

#[test]
fn format_writes_every_port() {
    for n in 0..=u16::MAX {
        assert_eq!(format_u16(n), n.to_string());
    }
}

#[test]
fn format_then_parse_gives_the_number_back() {
    for n in [0u16, 1, 9, 10, 99, 100, 8765, 9999, 10000, 65534, 65535] {
        assert_eq!(parse_u16(&format_u16(n)), Some(n));
    }
}

#[test]
fn format_exact_values() {
    assert_eq!(format_u16(0), "0");
    assert_eq!(format_u16(7), "7");
    assert_eq!(format_u16(10), "10");
    assert_eq!(format_u16(8765), "8765");
    assert_eq!(format_u16(65535), "65535");
}

#[test]
fn parse_exact_values() {
    assert_eq!(parse_u16("0"), Some(0));
    assert_eq!(parse_u16("8765"), Some(8765));
    assert_eq!(parse_u16("65535"), Some(65535));
    assert_eq!(parse_u16("+80"), Some(80));
    assert_eq!(parse_u16("007"), Some(7));
    assert_eq!(parse_u16("+000"), Some(0));
}

#[test]
fn parse_rejects_what_is_out_of_range() {
    assert_eq!(parse_u16("65536"), None);
    assert_eq!(parse_u16("70000"), None);
    assert_eq!(parse_u16("99999"), None);
    assert_eq!(parse_u16("100000"), None);
    assert_eq!(parse_u16("4294967296"), None);
    assert_eq!(parse_u16("42949672960000000000000000000000"), None);
    assert_eq!(parse_u16("-1"), None);
}

#[test]
fn parse_accepts_any_number_of_leading_zeros() {
    assert_eq!(parse_u16("0000000000000000000000000000000000065535"), Some(65535));
    assert_eq!(parse_u16("0000000000000000000000000000000000065536"), None);
    assert_eq!(parse_u16("+00000000000000000000000000000000000001"), Some(1));
}

#[test]
fn parse_rejects_what_is_no_numeral() {
    for s in [
        "", "+", "-", "++1", "+-1", "-0", "1+", " 1", "1 ", "1\n", "\t1", "1_000", "0x10", "1.0",
        "1e3", "abc", "12a", "a12", "--ws-port=1", "\u{ff11}\u{ff12}", "\u{0663}", "1\u{0}",
        "\u{1f600}", "6553\u{ff15}",
    ] {
        assert_eq!(parse_u16(s), None, "{:?}", s);
    }
}

#[test]
fn parse_agrees_with_the_standard_library() {
    let pieces = ["", "+", "-", "0", "1", "9", "6", "5", "3", "a", " ", "\u{ff11}", "00"];
    for a in pieces {
        for b in pieces {
            for c in pieces {
                for d in pieces {
                    let s = format!("{}{}{}{}", a, b, c, d);
                    assert_eq!(parse_u16(&s), std_parse(&s), "{:?}", s);
                }
            }
        }
    }
    for n in 65000u32..70000 {
        let s = n.to_string();
        assert_eq!(parse_u16(&s), std_parse(&s), "{:?}", s);
        let s = format!("+{}", n);
        assert_eq!(parse_u16(&s), std_parse(&s), "{:?}", s);
        let s = format!("0{}", n);
        assert_eq!(parse_u16(&s), std_parse(&s), "{:?}", s);
    }
}
