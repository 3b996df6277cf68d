//! IC variant markers: each supported device is selected at the type level.

use vstd::prelude::*;

verus! {

/// MMA8451 IC marker (14-bit resolution).
#[derive(Debug)]
pub struct Mma8451;

/// MMA8452 IC marker (12-bit resolution).
#[derive(Debug)]
pub struct Mma8452;

/// MMA8453 IC marker (10-bit resolution).
#[derive(Debug)]
pub struct Mma8453;

/// MMA8652 IC marker (12-bit resolution).
#[derive(Debug)]
pub struct Mma8652;

/// MMA8653 IC marker (10-bit resolution).
#[derive(Debug)]
pub struct Mma8653;

} // verus!
