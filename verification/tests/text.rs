use scl3::text::{join_pieces, joined, joined3, parse_number, same_text, to_decimal, trim, white_space};

fn strings(texts: &[&str]) -> Vec<String> {
    texts.iter().map(|t| t.to_string()).collect()
}

#[test]
fn text_is_compared_and_joined() {
    assert!(same_text("版本", "版本"));
    assert!(!same_text("版本", "版"));
    assert_eq!(joined("登录失败: ", "timeout"), "登录失败: timeout");
    assert_eq!(joined3("a", "", "c"), "ac");
}

#[test]
fn pieces_are_joined_as_std_joins_them() {
    for pieces in [vec![], vec!["1.20.1"], vec!["1.20", "", "1.21"]] {
        assert_eq!(join_pieces(&strings(&pieces), ", "), pieces.join(", "));
    }
    assert_eq!(join_pieces(&strings(&["fabric", "quilt"]), ", "), "fabric, quilt");
}

#[test]
fn white_space_is_unicode_white_space() {
    for code in 0..=0x10ffffu32 {
        if let Some(c) = char::from_u32(code) {
            assert_eq!(white_space(c), c.is_whitespace(), "{:x}", code);
        }
    }
}

#[test]
fn trim_takes_white_space_off_both_ends() {
    for text in ["", "  ", "id", " \u{3000}id of app\u{a0}\n", "\t客户 端 "] {
        assert_eq!(trim(text), text.trim());
    }
    assert_eq!(trim(" 0a-1b "), "0a-1b");
}

#[test]
fn numbers_are_written_in_decimal() {
    for n in [0, 7, 9, 10, 99, 100, 238222, u64::MAX] {
        assert_eq!(to_decimal(n), n.to_string());
        assert_eq!(parse_number(&to_decimal(n)), Some(n));
    }
    assert_eq!(to_decimal(10450), "10450");
}

#[test]
fn numbers_are_read_as_std_reads_them() {
    let texts = [
        "", "+", "-", "0", "+0", "-0", "007", "238222", "+238222", " 1", "1 ", "1_000", "1e3",
        "18446744073709551615", "18446744073709551616", "99999999999999999999", "++1", "AABBCC",
        "１", "00000000000000000000000000001",
    ];
    for text in texts {
        assert_eq!(parse_number(text), text.parse::<u64>().ok(), "{}", text);
    }
    assert_eq!(parse_number("238222"), Some(238222));
    assert_eq!(parse_number("sodium"), None);
}
