//! Text-vs-binary classification, by sniffing a file's content.
//!
//! A file is a conversion candidate only when its content looks like text.
//! Sniffing failure for an I/O reason is its own answer: the caller reports
//! it as that file's error, and the run goes on.

use vstd::prelude::*;

verus! {

/// How the classifier judged one path.
#[derive(Clone, Copy, PartialEq, Eq, Structural, Debug)]
pub enum Classification {
    /// Content looks like text: the file is a conversion candidate.
    Text,
    /// Content looks like opaque binary: the file is left untouched.
    Binary,
    /// The file could not be opened or read for sniffing.
    Unreadable,
}

/// Relies on binaryornot::is_binary: sniffs a starting chunk of the file
/// at the given path and judges it binary or text; `Err` exactly on an I/O
/// failure opening or reading that chunk. The judgement depends on what is
/// on disk, so nothing is stated of the returned value.
#[verifier::external_body]
fn sniff_binary(path: &String) -> Option<bool> {
    binaryornot::is_binary(path.as_str()).ok()
}

/// Decide whether the file at `path` should be treated as text. The answer
/// depends on what is on disk, so it is not pinned here; callers handle
/// every value.
pub fn classify_path(path: &String) -> Classification {
    match sniff_binary(path) {
        Some(false) => Classification::Text,
        Some(true) => Classification::Binary,
        None => Classification::Unreadable,
    }
}

} // verus!
