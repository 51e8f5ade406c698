//! Maximal-run character scanning shared by both recognizers.
//!
//! Each recognizer grammar is built from greedy, non-backtracking runs of
//! characters drawn from a fixed class. `run_upto` is the mathematical
//! description of such a run; `scan` is its executable counterpart.

use vstd::prelude::*;

verus! {

/// A character class of the recognizer grammars: each variant names the set
/// of characters that may continue a maximal run.
#[derive(Clone, Copy, Debug)]
pub enum CharClass {
    /// Type prefix of a bracketed link: anything but `<`, `>`, newline, `]`, `:`.
    LinkType,
    /// Destination of a bracketed link: anything but `<`, `>`, newline, `]`.
    LinkPath,
    /// Description of a bracketed link: anything but `[` and `]`.
    Desc,
    /// Scheme of a plain link: anything but space, newline, `:`, `@`, `]`, `[`, `.`, `,`.
    Scheme,
    /// Destination of a plain link: like `Scheme`, but `:` may appear.
    PlainPath,
    /// Any character except `]`; a run of this class ends at the first `]`.
    NoClose,
    /// Any character except newline; a run of this class ends at the line end.
    NoNewline,
    /// A footnote label character: ASCII alphanumeric, `-` or `_`.
    Label,
}

/// A footnote label may hold ASCII letters, ASCII digits, `-` and `_` only.
pub open spec fn is_label_char(c: char) -> bool {
    (48 <= c as u32 && c as u32 <= 57)  // '0' ..= '9'
    || (65 <= c as u32 && c as u32 <= 90)  // 'A' ..= 'Z'
    || (97 <= c as u32 && c as u32 <= 122)  // 'a' ..= 'z'
    || c == '-'
    || c == '_'
}

/// Whether character `c` belongs to class `k`.
pub open spec fn class_allows(k: CharClass, c: char) -> bool {
    match k {
        CharClass::LinkType => c != '<' && c != '>' && c != '\n' && c != ']' && c != ':',
        CharClass::LinkPath => c != '<' && c != '>' && c != '\n' && c != ']',
        CharClass::Desc => c != '[' && c != ']',
        CharClass::Scheme => c != ' ' && c != '\n' && c != ':' && c != '@' && c != ']' && c != '['
            && c != '.' && c != ',',
        CharClass::PlainPath => c != ' ' && c != '\n' && c != '@' && c != ']' && c != '[' && c != '.'
            && c != ',',
        CharClass::NoClose => c != ']',
        CharClass::NoNewline => c != '\n',
        CharClass::Label => is_label_char(c),
    }
}

/// The index at which the greedy run of class `k` starting at `from` ends,
/// after consuming at most `fuel` characters: the run extends while characters
/// belong to the class, and stops at the first character outside it, at the
/// end of `s`, or after `fuel` characters, whichever comes first.
pub open spec fn run_upto(s: Seq<char>, from: int, fuel: int, k: CharClass) -> int
    decreases fuel,
{
    if fuel <= 0 || from >= s.len() || !class_allows(k, s[from]) {
        from
    } else {
        run_upto(s, from + 1, fuel - 1, k)
    }
}

/// `run_upto` is pinned down by its three stopping conditions: any index `n`
/// such that everything before it (from `from` on) is in the class and the
/// run cannot continue at `n` is the run's end.
pub proof fn lemma_run_upto_unique(s: Seq<char>, from: int, fuel: int, k: CharClass, n: int)
    requires
        0 <= from <= n <= s.len(),
        n - from <= fuel,
        forall|j: int| from <= j < n ==> class_allows(k, s[j]),
        (n < s.len() && n - from < fuel) ==> !class_allows(k, s[n]),
    ensures
        run_upto(s, from, fuel, k) == n,
    decreases n - from,
{
    if n > from {
        assert(class_allows(k, s[from]));
        lemma_run_upto_unique(s, from + 1, fuel - 1, k, n);
    }
}

/// Bounds and contents of a greedy run: it stays inside `s`, consumes at most
/// `fuel` characters, everything it covers belongs to the class, and it stops
/// only for one of the three stopping conditions.
pub proof fn lemma_run_upto_props(s: Seq<char>, from: int, fuel: int, k: CharClass)
    requires
        0 <= from <= s.len(),
        0 <= fuel,
    ensures
        from <= run_upto(s, from, fuel, k) <= s.len(),
        run_upto(s, from, fuel, k) - from <= fuel,
        forall|j: int| from <= j < run_upto(s, from, fuel, k) ==> class_allows(k, s[j]),
        (run_upto(s, from, fuel, k) < s.len() && run_upto(s, from, fuel, k) - from < fuel)
            ==> !class_allows(k, s[run_upto(s, from, fuel, k)]),
    decreases fuel,
{
    if !(fuel <= 0 || from >= s.len() || !class_allows(k, s[from])) {
        lemma_run_upto_props(s, from + 1, fuel - 1, k);
    }
}

/// Decides membership in a character class; the executable twin of
/// `class_allows`.
pub fn char_in_class(k: CharClass, c: char) -> (b: bool)
    ensures
        b == class_allows(k, c),
{
    match k {
        CharClass::LinkType => c != '<' && c != '>' && c != '\n' && c != ']' && c != ':',
        CharClass::LinkPath => c != '<' && c != '>' && c != '\n' && c != ']',
        CharClass::Desc => c != '[' && c != ']',
        CharClass::Scheme => c != ' ' && c != '\n' && c != ':' && c != '@' && c != ']' && c != '['
            && c != '.' && c != ',',
        CharClass::PlainPath => c != ' ' && c != '\n' && c != '@' && c != ']' && c != '[' && c != '.'
            && c != ',',
        CharClass::NoClose => c != ']',
        CharClass::NoNewline => c != '\n',
        CharClass::Label => {
            let u = c as u32;
            (48 <= u && u <= 57) || (65 <= u && u <= 90) || (97 <= u && u <= 122) || c == '-'
                || c == '_'
        },
    }
}

/// Walks the greedy run of class `k` in `s` from index `from`, consuming at
/// most `cap` characters, and returns the index where the run ends.
///
/// `len` must be the character length of `s`; the caller obtains it once so
/// that repeated scans of the same string need not recount it.
pub fn scan(s: &str, from: usize, len: usize, cap: usize, k: CharClass) -> (r: usize)
    requires
        from <= len,
        len == s@.len(),
    ensures
        r as int == run_upto(s@, from as int, cap as int, k),
        from <= r <= len,
        r - from <= cap,
        forall|j: int| from <= j < r ==> class_allows(k, s@[j]),
        (r < len && r - from < cap) ==> !class_allows(k, s@[r as int]),
{
    let mut i = from;
    loop
        invariant
            from <= i <= len,
            i - from <= cap,
            len == s@.len(),
            forall|j: int| from <= j < i ==> class_allows(k, s@[j]),
        ensures
            from <= i <= len,
            i - from <= cap,
            forall|j: int| from <= j < i ==> class_allows(k, s@[j]),
            i == len || i - from == cap || !class_allows(k, s@[i as int]),
        decreases len - i,
    {
        if i == len {
            break;
        }
        if i - from == cap {
            break;
        }
        let c = s.get_char(i);
        if !char_in_class(k, c) {
            break;
        }
        i = i + 1;
    }
    proof {
        lemma_run_upto_unique(s@, from as int, cap as int, k, i as int);
    }
    i
}

} // verus!
