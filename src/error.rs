use vstd::prelude::*;

verus! {

/// The failures of the worker core.
#[derive(Debug)]
pub enum DragonflyError {
    /// The artifact at the given URL exceeds the size bound.
    DownloadTooLarge(String),
    /// The concatenated rule text was refused by the rule engine.
    RuleCompilation(String),
    /// The retrieved bytes from the given URL do not form a readable
    /// archive; the reader's message follows.
    InvalidArchive(String, String),
}

} // verus!
