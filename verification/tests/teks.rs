use finance_tracker::error::ApiError;
use finance_tracker::teks::{
    format_user_id, join_words, parse_user_id, split_words, str_le, str_trim,
};

#[test]
fn user_identifiers_are_read_and_written() {
    let id = parse_user_id("8787368b-3437-4440-9d99-0675386f1626").unwrap();
    assert_eq!(id, 0x8787368b_3437_4440_9d99_0675386f1626u128);
    assert_eq!(parse_user_id("8787368b343744409d990675386f1626"), Ok(id));
    assert_eq!(parse_user_id("8787368B-3437-4440-9D99-0675386F1626"), Ok(id));
    assert_eq!(format_user_id(id), "8787368b-3437-4440-9d99-0675386f1626");
    assert_eq!(format_user_id(1), "00000000-0000-0000-0000-000000000001");
    assert_eq!(parse_user_id(""), Err(ApiError::InvalidUserId));
    assert_eq!(parse_user_id("8787368b-3437-4440-9d99"), Err(ApiError::InvalidUserId));
    assert_eq!(parse_user_id("user-1"), Err(ApiError::InvalidUserId));
}

#[test]
fn texts_are_split_into_words() {
    assert_eq!(split_words("Budi Santoso"), vec!["Budi", "Santoso"]);
    assert_eq!(split_words("  Siti \t Nur\nHaliza  "), vec!["Siti", "Nur", "Haliza"]);
    assert_eq!(split_words("satu"), vec!["satu"]);
    assert!(split_words("").is_empty());
    assert!(split_words(" \u{a0}\u{2003} ").is_empty());
    assert_eq!(split_words("é ü"), vec!["é", "ü"]);
}

#[test]
fn words_are_joined_with_one_space() {
    let words: Vec<String> = ["a", "bc", "d"].iter().map(|w| w.to_string()).collect();
    assert_eq!(join_words(&words, 0), "a bc d");
    assert_eq!(join_words(&words, 1), "bc d");
    assert_eq!(join_words(&words, 2), "d");
    assert_eq!(join_words(&words, 3), "");
}

#[test]
fn texts_are_trimmed_at_both_ends() {
    assert_eq!(str_trim("  makan siang \t\n"), "makan siang");
    assert_eq!(str_trim("kopi"), "kopi");
    assert_eq!(str_trim(" a  b "), "a  b");
    assert_eq!(str_trim(""), "");
    assert_eq!(str_trim(" \u{a0}\u{3000}\r\n "), "");
    assert_eq!(str_trim("\u{2003}é ü\u{85}"), "é ü");
    assert_eq!(str_trim("\u{200b}x\u{200b}"), "\u{200b}x\u{200b}");
    let texts = ["", " ", "a", " a", "a ", "\t a b \n", "\u{1680}x y\u{2028}", "越 南 ", "\u{feff}z "];
    for text in texts {
        assert_eq!(str_trim(text), text.trim());
    }
}

#[test]
fn texts_are_ordered_by_their_characters() {
    assert!(str_le("", ""));
    assert!(str_le("", "a"));
    assert!(!str_le("a", ""));
    assert!(str_le("a", "a"));
    assert!(str_le("a", "ab"));
    assert!(!str_le("ab", "a"));
    assert!(str_le("B", "a"));
    assert!(!str_le("a", "B"));
    assert!(str_le("ab", "b"));
    assert!(str_le("z", "é"));
    assert!(str_le("é", "越"));
    assert!(str_le("\u{ffff}", "\u{10000}"));
    let texts = ["", "a", "A", "ab", "b", "é", "e\u{301}", "越", "\u{ffff}", "\u{10000}", "~", "Makan"];
    for a in texts {
        for b in texts {
            assert_eq!(str_le(a, b), a <= b);
        }
    }
}
