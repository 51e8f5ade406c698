//! Recognizer for link objects: the bracketed form
//! `[[type:path][description]]` (type and description optional) and the bare
//! `scheme:path` autolink form.

use crate::scan::{scan, lemma_run_upto_props, run_upto, CharClass};
use vstd::prelude::*;

verus! {

/// Mathematical content of a recognized link: its three fields as character
/// sequences, independent of how the executable value stores them.
pub struct LinkModel {
    pub link_type: Option<Seq<char>>,
    pub path: Seq<char>,
    pub desc: Option<Seq<char>>,
}

/// A recognized link object.
///
/// `link_type` is present only for typed links (`cite:`, `http`, ...);
/// `desc` only when an explicit `[description]` segment was matched. `path`
/// may be empty: an empty-path bracket link is syntactically valid. Every
/// field owns an independent copy of its span of the input, so a `Link`
/// never dangles into the buffer it was matched from.
#[derive(Debug, Clone, PartialEq)]
pub struct Link {
    pub link_type: Option<String>,
    pub path: String,
    pub desc: Option<String>,
}

impl View for Link {
    type V = LinkModel;

    open spec fn view(&self) -> LinkModel {
        LinkModel {
            link_type: self.link_type.deep_view(),
            path: self.path@,
            desc: self.desc.deep_view(),
        }
    }
}

/// The bracketed-link grammar, matched greedily and without backtracking
/// across segments. `None` when any required step fails; otherwise the
/// matched fields together with the number of characters consumed.
///
/// The steps, in order: the literal `[[`; an optional type prefix (a run of
/// `LinkType` characters, accepted only when a `:` follows immediately,
/// consuming nothing otherwise); the path (a possibly empty run of
/// `LinkPath` characters); a literal `]`; an optional description (only when
/// a `[` follows: a run of `Desc` characters closed by `]`); and the final
/// literal `]`.
pub open spec fn spec_parse_link(s: Seq<char>) -> Option<(LinkModel, int)> {
    if s.len() < 2 || s[0] != '[' || s[1] != '[' {
        None
    } else {
        let t_end = run_upto(s, 2, s.len() as int, CharClass::LinkType);
        let has_type = t_end < s.len() && s[t_end] == ':';
        let lt = if has_type {
            Some(s.subrange(2, t_end))
        } else {
            None
        };
        let p_start: int = if has_type {
            t_end + 1
        } else {
            2
        };
        let p_end = run_upto(s, p_start, s.len() as int, CharClass::LinkPath);
        if !(p_end < s.len() && s[p_end] == ']') {
            None
        } else {
            let d_pos = p_end + 1;
            if d_pos < s.len() && s[d_pos] == '[' {
                let d_end = run_upto(s, d_pos + 1, s.len() as int, CharClass::Desc);
                if !(d_end < s.len() && s[d_end] == ']') {
                    None
                } else {
                    let f_pos = d_end + 1;
                    if f_pos < s.len() && s[f_pos] == ']' {
                        Some(
                            (
                                LinkModel {
                                    link_type: lt,
                                    path: s.subrange(p_start, p_end),
                                    desc: Some(s.subrange(d_pos + 1, d_end)),
                                },
                                f_pos + 1,
                            ),
                        )
                    } else {
                        None
                    }
                }
            } else {
                if d_pos < s.len() && s[d_pos] == ']' {
                    Some(
                        (
                            LinkModel {
                                link_type: lt,
                                path: s.subrange(p_start, p_end),
                                desc: None,
                            },
                            d_pos + 1,
                        ),
                    )
                } else {
                    None
                }
            }
        }
    }
}

/// The plain-autolink grammar: a scheme of 1 to 10 `Scheme` characters, a
/// literal `:`, then a possibly empty run of `PlainPath` characters as the
/// path. The scheme bound keeps runaway scans out of ordinary prose; the
/// path excludes trailing sentence punctuation by design.
pub open spec fn spec_parse_plain(s: Seq<char>) -> Option<(LinkModel, int)> {
    let t_end = run_upto(s, 0, 10, CharClass::Scheme);
    if t_end < 1 || t_end >= s.len() || s[t_end] != ':' {
        None
    } else {
        let p_end = run_upto(s, t_end + 1, s.len() as int, CharClass::PlainPath);
        Some(
            (
                LinkModel {
                    link_type: Some(s.subrange(0, t_end)),
                    path: s.subrange(t_end + 1, p_end),
                    desc: None,
                },
                p_end,
            ),
        )
    }
}

/// The text that a bracketed link's fields came from: the literal `[[`, the
/// type followed by `:` when present, the path, a `]`, the description in
/// its own brackets when present, and the final `]`.
pub open spec fn spec_render_bracketed(m: LinkModel) -> Seq<char> {
    let type_part = match m.link_type {
        Some(t) => t.push(':'),
        None => Seq::<char>::empty(),
    };
    let desc_part = match m.desc {
        Some(d) => seq!['['] + d + seq![']'],
        None => Seq::<char>::empty(),
    };
    seq!['[', '['] + type_part + m.path + seq![']'] + desc_part + seq![']']
}

/// Law: whenever the bracketed-link grammar matches, the consumed length
/// stays within the input, and re-rendering the matched fields reproduces
/// exactly the consumed prefix of the input — the prefix whose length is
/// the input's length minus the remainder's.
pub proof fn lemma_parse_link_renders_prefix(s: Seq<char>)
    requires
        spec_parse_link(s) is Some,
    ensures
        0 <= spec_parse_link(s)->Some_0.1 <= s.len(),
        spec_render_bracketed(spec_parse_link(s)->Some_0.0) == s.subrange(
            0,
            spec_parse_link(s)->Some_0.1,
        ),
{
    let t_end = run_upto(s, 2, s.len() as int, CharClass::LinkType);
    let has_type = t_end < s.len() && s[t_end] == ':';
    let p_start: int = if has_type {
        t_end + 1
    } else {
        2
    };
    lemma_run_upto_props(s, 2, s.len() as int, CharClass::LinkType);
    lemma_run_upto_props(s, p_start, s.len() as int, CharClass::LinkPath);
    let p_end = run_upto(s, p_start, s.len() as int, CharClass::LinkPath);
    let d_pos = p_end + 1;
    if d_pos < s.len() && s[d_pos] == '[' {
        lemma_run_upto_props(s, d_pos + 1, s.len() as int, CharClass::Desc);
    }
    let m = spec_parse_link(s)->Some_0.0;
    let n = spec_parse_link(s)->Some_0.1;
    assert(spec_render_bracketed(m) =~= s.subrange(0, n));
}

/// The text that a plain autolink's fields came from: the scheme, the `:`,
/// and the path.
pub open spec fn spec_render_plain(m: LinkModel) -> Seq<char> {
    match m.link_type {
        Some(t) => t.push(':') + m.path,
        None => m.path,
    }
}

/// Law: whenever the plain-autolink grammar matches, the consumed length
/// stays within the input, and joining scheme, `:` and path reproduces
/// exactly the consumed prefix of the input.
pub proof fn lemma_parse_plain_renders_prefix(s: Seq<char>)
    requires
        spec_parse_plain(s) is Some,
    ensures
        0 <= spec_parse_plain(s)->Some_0.1 <= s.len(),
        spec_render_plain(spec_parse_plain(s)->Some_0.0) == s.subrange(
            0,
            spec_parse_plain(s)->Some_0.1,
        ),
{
    let t_end = run_upto(s, 0, 10, CharClass::Scheme);
    lemma_run_upto_props(s, 0, 10, CharClass::Scheme);
    lemma_run_upto_props(s, t_end + 1, s.len() as int, CharClass::PlainPath);
    let m = spec_parse_plain(s)->Some_0.0;
    let n = spec_parse_plain(s)->Some_0.1;
    assert(spec_render_plain(m) =~= s.subrange(0, n));
}

impl Link {
    /// Recognizes a bracketed link object at the start of `input`. On a
    /// match, returns the unconsumed remainder of `input` and the link;
    /// `None` exactly when the grammar does not match, with no partial
    /// result.
    pub fn parse(input: &str) -> (r: Option<(&str, Link)>)
        ensures
            match spec_parse_link(input@) {
                Some(m) => r matches Some(p) && p.0@ == input@.subrange(m.1, input@.len() as int)
                    && p.1@ == m.0,
                None => r is None,
            },
    {
        let len = input.unicode_len();
        if len < 2 {
            return None;
        }
        if input.get_char(0) != '[' || input.get_char(1) != '[' {
            return None;
        }
        let t_end = scan(input, 2, len, len, CharClass::LinkType);
        let has_type = t_end < len && input.get_char(t_end) == ':';
        let p_start: usize = if has_type {
            t_end + 1
        } else {
            2
        };
        let p_end = scan(input, p_start, len, len, CharClass::LinkPath);
        if p_end == len {
            return None;
        }
        if input.get_char(p_end) != ']' {
            return None;
        }
        let link_type = if has_type {
            Some(input.substring_char(2, t_end).to_owned())
        } else {
            None
        };
        let path = input.substring_char(p_start, p_end).to_owned();
        let d_pos = p_end + 1;
        if d_pos < len && input.get_char(d_pos) == '[' {
            let d_end = scan(input, d_pos + 1, len, len, CharClass::Desc);
            if d_end == len {
                return None;
            }
            if input.get_char(d_end) != ']' {
                return None;
            }
            let f_pos = d_end + 1;
            if f_pos < len && input.get_char(f_pos) == ']' {
                let desc = input.substring_char(d_pos + 1, d_end).to_owned();
                let rem = input.substring_char(f_pos + 1, len);
                Some((rem, Link { link_type, path, desc: Some(desc) }))
            } else {
                None
            }
        } else {
            if d_pos < len && input.get_char(d_pos) == ']' {
                let rem = input.substring_char(d_pos + 1, len);
                Some((rem, Link { link_type, path, desc: None }))
            } else {
                None
            }
        }
    }

    /// Recognizes a plain autolink (`scheme:path`) at the start of `input`.
    /// On a match, returns the unconsumed remainder and the link, whose
    /// `link_type` is always present and whose `desc` is always absent.
    pub fn parse_plain(input: &str) -> (r: Option<(&str, Link)>)
        ensures
            match spec_parse_plain(input@) {
                Some(m) => r matches Some(p) && p.0@ == input@.subrange(m.1, input@.len() as int)
                    && p.1@ == m.0,
                None => r is None,
            },
    {
        let len = input.unicode_len();
        let t_end = scan(input, 0, len, 10, CharClass::Scheme);
        if t_end == 0 || t_end == len {
            return None;
        }
        if input.get_char(t_end) != ':' {
            return None;
        }
        let p_end = scan(input, t_end + 1, len, len, CharClass::PlainPath);
        let rem = input.substring_char(p_end, len);
        let link_type = Some(input.substring_char(0, t_end).to_owned());
        let path = input.substring_char(t_end + 1, p_end).to_owned();
        Some((rem, Link { link_type, path, desc: None }))
    }

    /// Returns the same link with every field independently owned. The
    /// fields of a `Link` already own their content, so this is the identity
    /// on logical value: converting an already-owned link again yields an
    /// equal value.
    pub fn into_owned(self) -> (r: Link)
        ensures
            r@ == self@,
    {
        self
    }
}

} // verus!
