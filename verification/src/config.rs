//! Display configuration: which optional columns are shown.

use vstd::prelude::*;

verus! {

/// The four independent display flags.  `all` is a shorthand that turns
/// every optional column on without altering the other flags.
#[derive(Clone, Copy, Debug, PartialEq, Eq, Structural)]
pub struct Config {
    /// Show every optional column.
    pub all: bool,
    /// Show the creation-time column.
    pub created: bool,
    /// Show the size column.
    pub size: bool,
    /// Show the modification-time column.
    pub updated: bool,
}

impl Config {
    /// Whether the size column is rendered.
    pub open spec fn shows_size(self) -> bool {
        self.size || self.all
    }

    /// Whether the creation-time column is rendered.
    pub open spec fn shows_created(self) -> bool {
        self.created || self.all
    }

    /// Whether the modification-time column is rendered.
    pub open spec fn shows_updated(self) -> bool {
        self.updated || self.all
    }

    /// Whether any column beyond the name needs the entry's metadata.
    pub open spec fn needs_meta(self) -> bool {
        self.shows_size() || self.shows_created() || self.shows_updated()
    }
}

} // verus!
