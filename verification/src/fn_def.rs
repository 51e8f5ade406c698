//! Recognizer for footnote-definition labels: a `[fn:label]` marker at the
//! start of a line, which owns the rest of that line as provisional
//! definition text.

use crate::scan::{scan, class_allows, is_label_char, lemma_run_upto_props, run_upto, CharClass};
use vstd::prelude::*;

verus! {

/// Recognizer for a footnote-definition label.
#[derive(Debug, PartialEq)]
pub struct FnDef;

/// The caller's obligation: the text handed to `FnDef::parse` starts with
/// the four-character marker `[fn:`.
pub open spec fn starts_with_fn_marker(s: Seq<char>) -> bool {
    s.len() >= 4 && s[0] == '[' && s[1] == 'f' && s[2] == 'n' && s[3] == ':'
}

/// The footnote-label grammar, for text that starts with the `[fn:` marker.
/// `close` is the position of the first `]` anywhere in `s` (the end of `s`
/// when there is none) and `eol` the end of the current line (the position
/// of the first newline, or the end of `s`). The match succeeds exactly when
/// a `]` exists, the label between the marker and that `]` is non-empty, and
/// every label character is ASCII alphanumeric, `-` or `_`. The result is
/// the label, the rest of the line after the `]` (verbatim, leading
/// whitespace preserved), and `eol` as the absolute offset where consumption
/// of this line ends.
pub open spec fn spec_parse_fn_def(s: Seq<char>) -> Option<(Seq<char>, Seq<char>, int)> {
    let close = run_upto(s, 0, s.len() as int, CharClass::NoClose);
    let eol = run_upto(s, 0, s.len() as int, CharClass::NoNewline);
    if close < s.len() && 4 < close && (forall|j: int| 4 <= j < close ==> is_label_char(s[j])) {
        Some((s.subrange(4, close), s.subrange(close + 1, eol), eol))
    } else {
        None
    }
}

/// Law: a successful footnote-label match yields a non-empty label made of
/// valid label characters only, and the reported end offset stays inside the
/// input and lies past the closing `]` — which stands right after the
/// marker and the label, at position `4 + label.len()`.
pub proof fn lemma_fn_def_match_shape(s: Seq<char>)
    requires
        starts_with_fn_marker(s),
        spec_parse_fn_def(s) is Some,
    ensures
        spec_parse_fn_def(s)->Some_0.0.len() > 0,
        forall|j: int|
            0 <= j < spec_parse_fn_def(s)->Some_0.0.len() ==> is_label_char(
                #[trigger] spec_parse_fn_def(s)->Some_0.0[j],
            ),
        spec_parse_fn_def(s)->Some_0.2 > 4 + spec_parse_fn_def(s)->Some_0.0.len(),
        spec_parse_fn_def(s)->Some_0.2 <= s.len(),
{
    let close = run_upto(s, 0, s.len() as int, CharClass::NoClose);
    let eol = run_upto(s, 0, s.len() as int, CharClass::NoNewline);
    lemma_run_upto_props(s, 0, s.len() as int, CharClass::NoClose);
    lemma_run_upto_props(s, 0, s.len() as int, CharClass::NoNewline);
    // No character up to and including the closing `]` is a newline, so the
    // line end lies strictly past the `]`.
    if eol <= close {
        assert(s[eol as int] == '\n');
        if 4 <= eol < close {
            assert(is_label_char(s[eol as int]));
        }
        assert(false);
    }
}

impl FnDef {
    /// Recognizes a `[fn:label]` marker and splits off the rest of the line.
    /// On a match, returns the label, the definition text (everything after
    /// the `]` up to the end of the line), and the offset — counted in
    /// characters from the start of `src` — one past the end of the line,
    /// not merely past the marker, since the label construct owns the rest
    /// of its line. `None` when no `]` exists, the label is empty, or a
    /// label character is invalid.
    ///
    /// The input must already be positioned at the `[fn:` marker; locating
    /// candidate markers is the tokenizer's job, and handing over anything
    /// else is a caller error.
    pub fn parse(src: &str) -> (r: Option<(&str, &str, usize)>)
        requires
            starts_with_fn_marker(src@),
        ensures
            match spec_parse_fn_def(src@) {
                Some(m) => r matches Some(p) && p.0@ == m.0 && p.1@ == m.1 && p.2 as int == m.2,
                None => r is None,
            },
    {
        let len = src.unicode_len();
        let close = scan(src, 0, len, len, CharClass::NoClose);
        proof {
            // The four marker characters are not `]`, so the first `]` can
            // only come after them.
            if close < 4 {
                assert(!class_allows(CharClass::NoClose, src@[close as int]));
                assert(false);
            }
        }
        if close == len {
            return None;
        }
        if close == 4 {
            return None;
        }
        let lab_end = scan(src, 4, len, len, CharClass::Label);
        if lab_end < close {
            proof {
                assert(!is_label_char(src@[lab_end as int]));
            }
            return None;
        }
        let eol = scan(src, 0, len, len, CharClass::NoNewline);
        proof {
            // No character up to and including the closing `]` is a newline:
            // the marker characters are fixed, label characters exclude it,
            // and `]` is not a newline. So the line extends past the `]`.
            if eol <= close {
                assert(src@[eol as int] == '\n');
                if 4 <= eol < close {
                    assert(is_label_char(src@[eol as int]));
                }
                assert(false);
            }
        }
        let label = src.substring_char(4, close);
        let def = src.substring_char(close + 1, eol);
        Some((label, def, eol))
    }
}

} // verus!
