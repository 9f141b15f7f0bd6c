//! Output formats and table rendering.

pub mod table;

use vstd::prelude::*;

verus! {

/// How command results are printed.
#[derive(Debug, Clone, Copy, PartialEq, Eq, Structural)]
pub enum OutputFormat {
    Json,
    JsonMinify,
    Table,
}

impl OutputFormat {
    pub fn is_minify(&self) -> (r: bool)
        ensures
            r == (*self == OutputFormat::JsonMinify),
    {
        match self {
            OutputFormat::JsonMinify => true,
            _ => false,
        }
    }
}

} // verus!
