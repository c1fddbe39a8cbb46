use ollama_tui::text::{
    chars_of, contains_text, insert_char, matches_lowered, push_decimal, remove_char, split_text,
    text_after_first, text_of,
};

fn decimal(n: usize) -> String {
    let mut s = String::new();
    push_decimal(&mut s, n);
    s
}

#[test]
fn decimal_numerals() {
    assert_eq!(decimal(0), "0");
    assert_eq!(decimal(7), "7");
    assert_eq!(decimal(10), "10");
    assert_eq!(decimal(42), "42");
    assert_eq!(decimal(1005), "1005");
    assert_eq!(decimal(usize::MAX), usize::MAX.to_string());
    let mut s = "n=".to_string();
    push_decimal(&mut s, 120);
    assert_eq!(s, "n=120");
}

#[test]
fn characters_round_trip() {
    assert_eq!(chars_of("a\u{e9}z"), vec!['a', '\u{e9}', 'z']);
    assert_eq!(chars_of(""), Vec::<char>::new());
    assert_eq!(text_of(&vec!['o', 'k']), "ok");
    assert_eq!(text_of(&chars_of("gr\u{fc}n")), "gr\u{fc}n");
}

#[test]
fn insert_and_remove_by_character_offset() {
    assert_eq!(insert_char("ac", 1, 'b'), "abc");
    assert_eq!(insert_char("", 0, 'x'), "x");
    assert_eq!(insert_char("ab", 2, 'c'), "abc");
    assert_eq!(insert_char("\u{e9}\u{e8}", 1, '-'), "\u{e9}-\u{e8}");
    assert_eq!(remove_char("abc", 1), "ac");
    assert_eq!(remove_char("\u{e9}x", 0), "x");
    assert_eq!(remove_char("x\u{e9}", 1), "x");
}

#[test]
fn matching_lowers_the_name() {
    assert!(matches_lowered("Llama3", "llama"));
    assert!(matches_lowered("CODELLAMA", "ella"));
    assert!(matches_lowered("anything", ""));
    assert!(!matches_lowered("mistral", "llama"));
    assert!(!matches_lowered("lla", "llama"));
}

#[test]
fn split_at_every_separator() {
    assert_eq!(split_text("/library/llama3", '/'), vec!["", "library", "llama3"]);
    assert_eq!(split_text("", '/'), vec![""]);
    assert_eq!(split_text("abc", '/'), vec!["abc"]);
    assert_eq!(split_text("a//b/", '/'), vec!["a", "", "b", ""]);
    assert_eq!(split_text("/", '/'), vec!["", ""]);
}

#[test]
fn text_after_the_first_occurrence() {
    assert_eq!(text_after_first("llama3:8b", ':'), "8b");
    assert_eq!(text_after_first("a:b:c", ':'), "b:c");
    assert_eq!(text_after_first("latest", ':'), "latest");
    assert_eq!(text_after_first("tail:", ':'), "");
    assert_eq!(text_after_first(":head", ':'), "head");
    assert_eq!(text_after_first("", ':'), "");
}

#[test]
fn text_is_found_among_texts() {
    let texts = vec!["latest".to_string(), "8b".to_string()];
    assert!(contains_text(&texts, "8b"));
    assert!(contains_text(&texts, "latest"));
    assert!(!contains_text(&texts, "8"));
    assert!(!contains_text(&Vec::new(), "8b"));
}
