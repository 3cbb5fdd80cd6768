use ttsbot::text::{decimal_string, parse_u64, replace, trim, to_ascii_lowercase, capitalize, join, same_text, starts_with};

#[test]
fn decimal_renders_numbers() {
    assert_eq!(decimal_string(0), "0");
    assert_eq!(decimal_string(7), "7");
    assert_eq!(decimal_string(334017809090740224), "334017809090740224");
    assert_eq!(decimal_string(u128::MAX), u128::MAX.to_string());
}

#[test]
fn parse_u64_follows_std() {
    for s in ["8", "+8", "0", "18446744073709551615", "18446744073709551616", "", "+", "-1", "12a", " 1", "007"] {
        assert_eq!(parse_u64(s), s.parse::<u64>().ok(), "input {:?}", s);
    }
}

#[test]
fn replace_follows_std() {
    let cases = [("a\nb\n", "\n", "．"), ("aaaa", "aa", "b"), ("x.webp.webp", ".webp", ".png"), ("\"JP\"", "\"", ""), ("Bearer Bearer t", "Bearer ", ""), ("ab", "", "x"), ("", "", "y"), ("日本", "", "-")];
    for (s, p, r) in cases {
        assert_eq!(replace(s, p, r), s.replace(p, r));
    }
}

#[test]
fn trim_follows_std() {
    for s in ["  a b \t", "\u{3000}x\u{2028}", "", "   ", "Bearer "] {
        assert_eq!(trim(s), s.trim());
    }
}

#[test]
fn case_and_join() {
    assert_eq!(to_ascii_lowercase("GuildÄ"), "guildÄ");
    assert_eq!(capitalize("ja-JP"), "Ja-JP");
    assert_eq!(capitalize(""), "");
    assert_eq!(join(&vec!["a".to_string(), "b".to_string(), "c".to_string()], ", "), "a, b, c");
    assert_eq!(join(&vec![], ","), "");
    assert!(same_text("abc", "abc"));
    assert!(!same_text("abc", "abd"));
    assert!(starts_with("z.join", "z."));
    assert!(!starts_with("z", "z."));
}
