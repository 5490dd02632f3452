//! Single-line shell-prompt summary of a version-control working tree:
//! branch name, divergence from upstream, and staged/unstaged change counts,
//! rendered plain, ANSI-colored, or prompt-escape-encoded.

pub mod branch;
pub mod color;
pub mod compose;
pub mod numerals;
pub mod status;
