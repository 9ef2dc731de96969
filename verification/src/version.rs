//! Semantic version of an application.

use vstd::prelude::*;

verus! {

/// A three-part version number.
#[derive(Debug, Clone, Copy, PartialEq, Eq, Structural)]
pub struct Version {
    pub major: u32,
    pub minor: u32,
    pub sub: u32,
}

} // verus!
