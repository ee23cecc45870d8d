//! Verified core of a binding layer over a native constraint-solving engine.
//!
//! Every nontrivial computation (solving, tactic application, model
//! construction) happens inside the engine, behind a C interface that only
//! unverified glue can reach. What this crate verifies is everything the
//! binding layer itself decides: the reference-counted handle discipline
//! (`handle`), the model-query protocol and its iteration order (`model`),
//! and the tactic-construction and application protocol (`tactic`). The glue
//! that actually crosses the C boundary consults these functions for every
//! decision and maintains a `handle::RefLedger` mirroring the engine's
//! reference counts.

use vstd::prelude::*;

pub mod handle;
pub mod model;
pub mod tactic;
pub mod text;

verus! {

/// A claim on one live native object: the identity of the owning context and
/// the object's address. A handle never wraps a null address; a null result
/// from the engine is surfaced as an absent value instead.
#[derive(Clone, Copy, Debug, PartialEq, Eq, Structural)]
pub struct Handle {
    /// Identity of the context (arena) the object lives in. Objects from
    /// different contexts are incompatible until explicitly translated.
    pub ctx: u64,
    /// The native object's address. Never zero for a live handle.
    pub raw: u64,
}

impl Handle {
    /// A live handle never wraps a null address.
    pub open spec fn wf(self) -> bool {
        self.raw != 0
    }
}

} // verus!
