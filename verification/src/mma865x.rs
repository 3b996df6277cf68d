//! Constructors for the MMA865x family, which sits at the fixed bus address
//! 0x1D.

use vstd::prelude::*;
use core::marker::PhantomData;
use crate::ic::{Mma8652, Mma8653};
use crate::mma845x::initial_regs;
use crate::mode::Standby;
use crate::register_access::BitFlags;
use crate::transport::Transport;
use crate::Mma8x5x;

verus! {

impl<I2C: Transport> Mma8x5x<I2C, Mma8652, Standby> {
    /// Create a new MMA8652 device handle in standby mode.
    pub fn new_mma8652(i2c: I2C) -> (r: Self)
        ensures
            r@ == initial_regs(0x1D),
            r.log() == i2c.log(),
    {
        Mma8x5x {
            address: 0x1D,
            i2c,
            ctrl_reg1: crate::Config { bits: 0 },
            ctrl_reg2: crate::Config { bits: 0 },
            ctrl_reg3: crate::Config { bits: 0 },
            pl_cfg: crate::Config { bits: BitFlags::DBCNTM },
            xyz_data_cfg: crate::Config { bits: 0 },
            _ic: PhantomData,
            _mode: PhantomData,
        }
    }
}

impl<I2C: Transport> Mma8x5x<I2C, Mma8653, Standby> {
    /// Create a new MMA8653 device handle in standby mode.
    pub fn new_mma8653(i2c: I2C) -> (r: Self)
        ensures
            r@ == initial_regs(0x1D),
            r.log() == i2c.log(),
    {
        Mma8x5x {
            address: 0x1D,
            i2c,
            ctrl_reg1: crate::Config { bits: 0 },
            ctrl_reg2: crate::Config { bits: 0 },
            ctrl_reg3: crate::Config { bits: 0 },
            pl_cfg: crate::Config { bits: BitFlags::DBCNTM },
            xyz_data_cfg: crate::Config { bits: 0 },
            _ic: PhantomData,
            _mode: PhantomData,
        }
    }
}

} // verus!
