//! Operating mode markers. The mode is part of the device handle's type, so
//! standby-only configuration calls and active-only measurement calls are
//! rejected at compile time.

use vstd::prelude::*;

verus! {

/// Standby mode marker.
#[derive(Debug)]
pub struct Standby;

/// Active mode marker.
#[derive(Debug)]
pub struct Active;

} // verus!
