//! Options of the pass.

use vstd::prelude::*;

verus! {

/// The options of the pass. None is recognised yet; the type is kept so that
/// options can be added without changing how the pass is configured.
#[derive(Debug, Default)]
pub struct Config {}

} // verus!
