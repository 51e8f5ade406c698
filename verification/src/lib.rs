//! Leaf-level lexical recognizers for inline markup constructs: bracketed
//! link objects (`[[type:path][description]]` and bare `scheme:path`
//! autolinks) and footnote-definition labels (`[fn:label]`).
//!
//! Both recognizers are pure functions over an immutable view of the input
//! text. A tokenizer positions them at a candidate marker; a `None` result
//! means "not this construct", and the caller falls back to treating the
//! marker as literal text. Each successful match reports how much input it
//! consumed so that scanning can resume right after the construct.

pub mod fn_def;
pub mod link;
pub mod scan;
