//! The systems that the launcher runs on.

use vstd::prelude::*;

verus! {

/// The system that the launcher was built for.
#[derive(Clone, Copy, Debug, PartialEq, Eq, Structural)]
pub enum Platform {
    Mac,
    Windows,
    Other,
}

} // verus!
