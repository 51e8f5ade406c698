use org_inline::link::Link;

#[test]
fn link_parse() {
    assert_eq!(
        Link::parse("[[#id]]"),
        Some((
            "",
            Link {
                link_type: None,
                path: "#id".to_string(),
                desc: None,
            }
        ))
    );
    assert_eq!(
        Link::parse("[[#id][desc]]"),
        Some((
            "",
            Link {
                link_type: None,
                path: "#id".to_string(),
                desc: Some("desc".to_string()),
            }
        ))
    );
    assert_eq!(
        Link::parse("[[cite:foo][desc]]"),
        Some((
            "",
            Link {
                link_type: Some("cite".to_string()),
                path: "foo".to_string(),
                desc: Some("desc".to_string()),
            }
        ))
    );
    assert!(Link::parse("[[#id][desc]").is_none());
}

#[test]
fn link_parse_remaining_input() {
    assert_eq!(
        Link::parse("[[#id]] tail"),
        Some((
            " tail",
            Link {
                link_type: None,
                path: "#id".to_string(),
                desc: None,
            }
        ))
    );
}

#[test]
fn link_parse_empty_path() {
    // An empty-path bracket link is syntactically valid.
    assert_eq!(
        Link::parse("[[]]"),
        Some((
            "",
            Link {
                link_type: None,
                path: String::new(),
                desc: None,
            }
        ))
    );
}

#[test]
fn link_parse_rejects_bad_forms() {
    assert!(Link::parse("[#id]]").is_none());
    assert!(Link::parse("[[#id").is_none());
    assert!(Link::parse("[[#id]").is_none());
    assert!(Link::parse("[[a][b]c").is_none());
    assert!(Link::parse("[[a<b]]").is_none());
    assert!(Link::parse("[[a\nb]]").is_none());
    assert!(Link::parse("[").is_none());
    assert!(Link::parse("").is_none());
}

#[test]
fn link_parse_type_needs_colon() {
    // Without a colon the would-be type run is re-read as the path.
    assert_eq!(
        Link::parse("[[cite]]"),
        Some((
            "",
            Link {
                link_type: None,
                path: "cite".to_string(),
                desc: None,
            }
        ))
    );
}

#[test]
fn link_parse_renders_consumed_prefix() {
    // Re-rendering the fields reproduces the consumed prefix of the input.
    let input = "[[cite:foo][desc]] and more";
    let (remaining, link) = Link::parse(input).unwrap();
    let mut rendered = String::from("[[");
    if let Some(t) = &link.link_type {
        rendered.push_str(t);
        rendered.push(':');
    }
    rendered.push_str(&link.path);
    rendered.push(']');
    if let Some(d) = &link.desc {
        rendered.push('[');
        rendered.push_str(d);
        rendered.push(']');
    }
    rendered.push(']');
    let consumed = input.len() - remaining.len();
    assert_eq!(rendered, input[..consumed].to_string());
}

#[test]
fn link_parse_plain() {
    assert_eq!(
        Link::parse_plain("mailto:someone rest"),
        Some((
            " rest",
            Link {
                link_type: Some("mailto".to_string()),
                path: "someone".to_string(),
                desc: None,
            }
        ))
    );
}

#[test]
fn link_parse_plain_stops_at_punctuation() {
    // Trailing sentence punctuation is left out of the path on purpose.
    assert_eq!(
        Link::parse_plain("https://x, said so"),
        Some((
            ", said so",
            Link {
                link_type: Some("https".to_string()),
                path: "//x".to_string(),
                desc: None,
            }
        ))
    );
}

#[test]
fn link_parse_plain_scheme_bounds() {
    // The scheme is read as at most ten characters; an eleventh character
    // before the colon makes the match fail.
    assert!(Link::parse_plain("abcdefghijk:path").is_none());
    assert_eq!(
        Link::parse_plain("abcdefghij:path"),
        Some((
            "",
            Link {
                link_type: Some("abcdefghij".to_string()),
                path: "path".to_string(),
                desc: None,
            }
        ))
    );
    // The scheme must hold at least one character.
    assert!(Link::parse_plain(":path").is_none());
    assert!(Link::parse_plain("noscheme").is_none());
}

#[test]
fn link_into_owned_keeps_content() {
    let (_, link) = Link::parse("[[cite:foo][desc]]").unwrap();
    let owned = link.clone().into_owned();
    assert_eq!(owned, link);
    // Converting an already-owned link again yields an equal value.
    let again = owned.clone().into_owned();
    assert_eq!(again, owned);
}
