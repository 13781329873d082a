use osc::json::extract_json;
use osc::text::{chars_of, fenced_json_text, is_whitespace};

#[test]
fn chars_of_gives_each_character() {
    assert_eq!(chars_of("héllo"), vec!['h', 'é', 'l', 'l', 'o']);
    assert!(chars_of("").is_empty());
}

#[test]
fn whitespace_agrees_with_std() {
    for c in (0u32..0x3100).filter_map(char::from_u32) {
        assert_eq!(is_whitespace(c), c.is_whitespace(), "char {:?}", c);
    }
}

#[test]
fn fenced_text_is_the_trimmed_first_block() {
    assert_eq!(fenced_json_text("Here:\n```\n {\"a\": 1} \n```\nbye"), "{\"a\": 1}");
    assert_eq!(fenced_json_text("x ```a``` y ```b```"), "a");
    assert_eq!(fenced_json_text("``````"), "");
}

#[test]
fn fenced_text_is_the_whole_message_without_a_closed_block() {
    assert_eq!(fenced_json_text("  {\"a\": 1}  "), "  {\"a\": 1}  ");
    assert_eq!(fenced_json_text("open ``` only"), "open ``` only");
}

#[test]
fn fenced_text_trims_unicode_whitespace_as_std_does() {
    let inner = "\u{2003}\u{85} [1, 2]\u{3000}\t";
    let msg = format!("```{}```", inner);
    assert_eq!(fenced_json_text(&msg), inner.trim());
}

#[test]
fn extract_json_reads_the_fenced_document() {
    let v = extract_json("Sure! ```json-ish\n``` ignored").is_err();
    assert!(v);
    let doc = extract_json("Here you go:\n```\n{\"name\": \"x\", \"n\": [1, 2]}\n```").unwrap();
    let expected: serde_json::Value = serde_json::from_str("{\"n\": [1, 2], \"name\": \"x\"}").unwrap();
    assert_eq!(doc, expected);
    let plain = extract_json("[true, null]").unwrap();
    assert_eq!(plain, serde_json::from_str::<serde_json::Value>("[true, null]").unwrap());
    assert!(extract_json("no json here").is_err());
}
