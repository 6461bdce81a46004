//! Why a configuration cannot be loaded at all.

use crate::pattern::PatternError;
use vstd::prelude::*;

verus! {

/// A fault that no default can mend.
#[derive(Clone, Debug, PartialEq, Eq)]
pub enum LoadError {
    /// The value that should describe a group of settings is not a mapping.
    NotMapping,
    /// The pattern for links cannot be used.
    Pattern(PatternError),
}

} // verus!
