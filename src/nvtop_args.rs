use std::path::PathBuf;
use vstd::prelude::*;

verus! {

/// An owned file-system path.
#[verifier::external_type_specification]
#[verifier::external_body]
pub struct ExPathBuf(PathBuf);

/// The inter-frame delay when none is given, in milliseconds.
pub const DEFAULT_DELAY_MS: u64 = 100;

/// The dashboard's options.
pub struct Cli {
    /// Time to wait between frames, in milliseconds.
    pub delay: u64,
    /// Where to log to; no path keeps logging off.
    pub log: Option<PathBuf>,
}

} // verus!
