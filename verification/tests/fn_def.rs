use org_inline::fn_def::FnDef;

#[test]
fn fn_def_parse() {
    assert_eq!(
        FnDef::parse("[fn:1] https://orgmode.org").unwrap(),
        (
            "1",
            " https://orgmode.org",
            "[fn:1] https://orgmode.org".len()
        )
    );
    assert_eq!(
        FnDef::parse("[fn:word_1] https://orgmode.org").unwrap(),
        (
            "word_1",
            " https://orgmode.org",
            "[fn:word_1] https://orgmode.org".len()
        )
    );
    assert_eq!(
        FnDef::parse("[fn:WORD-1] https://orgmode.org").unwrap(),
        (
            "WORD-1",
            " https://orgmode.org",
            "[fn:WORD-1] https://orgmode.org".len()
        )
    );
    assert_eq!(
        FnDef::parse("[fn:WORD]").unwrap(),
        ("WORD", "", "[fn:WORD]".len())
    );
    assert!(FnDef::parse("[fn:] https://orgmode.org").is_none());
    assert!(FnDef::parse("[fn:wor d] https://orgmode.org").is_none());
    assert!(FnDef::parse("[fn:WORD https://orgmode.org").is_none());
}

#[test]
fn fn_def_parse_stops_at_newline() {
    // The label construct owns the rest of its line, and nothing beyond.
    assert_eq!(
        FnDef::parse("[fn:a] first\nsecond"),
        Some(("a", " first", "[fn:a] first".len()))
    );
    assert_eq!(FnDef::parse("[fn:a]\nnext"), Some(("a", "", "[fn:a]".len())));
}

#[test]
fn fn_def_parse_rejects_punctuation_in_label() {
    assert!(FnDef::parse("[fn:a.b] text").is_none());
    assert!(FnDef::parse("[fn:a:b] text").is_none());
}

#[test]
fn fn_def_parse_rejects_close_after_newline() {
    // The first `]` comes only on the next line, so the label run hits the
    // newline first and the match fails.
    assert!(FnDef::parse("[fn:ab\ncd] text").is_none());
}
