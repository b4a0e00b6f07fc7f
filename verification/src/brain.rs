use vstd::prelude::*;

verus! {

/// The store that captured notes are appended to.
pub struct SecondBrain;

/// Appends captured notes to the second brain.
pub struct SecondBrainManager;

/// The formats a note can be written in.
pub enum SecondBrainSupportedFormats {
    Markdown,
}

} // verus!
