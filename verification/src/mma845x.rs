//! Constructors for the MMA845x family, whose base address 0x1C can be
//! raised by one with the A0 address-select pin.

use vstd::prelude::*;
use core::marker::PhantomData;
use crate::ic::{Mma8451, Mma8452, Mma8453};
use crate::mode::Standby;
use crate::register_access::BitFlags;
use crate::transport::Transport;
use crate::types::{spec_slave_addr, SlaveAddr, MMA845X_BASE_ADDR};
use crate::{DevState, Mma8x5x};

verus! {

/// The cached state every constructor starts from: all control registers at
/// their power-on default (PL_CFG holds only the debounce-mode bit), in
/// standby mode, at the resolved address.
pub open spec fn initial_regs(address: u8) -> DevState {
    DevState {
        address,
        ctrl_reg1: 0,
        ctrl_reg2: 0,
        ctrl_reg3: 0,
        pl_cfg: BitFlags::DBCNTM,
        xyz_data_cfg: 0,
    }
}

impl<I2C: Transport> Mma8x5x<I2C, Mma8451, Standby> {
    /// Create a new MMA8451 device handle in standby mode.
    pub fn new_mma8451(i2c: I2C, address: SlaveAddr) -> (r: Self)
        ensures
            r@ == initial_regs(spec_slave_addr(address, MMA845X_BASE_ADDR)),
            r.log() == i2c.log(),
    {
        Mma8x5x {
            address: address.addr(MMA845X_BASE_ADDR),
            i2c,
            ctrl_reg1: crate::Config { bits: 0 },
            ctrl_reg2: crate::Config { bits: 0 },
            ctrl_reg3: crate::Config { bits: 0 },
            pl_cfg: crate::Config { bits: BitFlags::DBCNTM },
            xyz_data_cfg: crate::Config { bits: 0 },
            _ic: PhantomData,
            _mode: PhantomData,
        }
    }
}

impl<I2C: Transport> Mma8x5x<I2C, Mma8452, Standby> {
    /// Create a new MMA8452 device handle in standby mode.
    pub fn new_mma8452(i2c: I2C, address: SlaveAddr) -> (r: Self)
        ensures
            r@ == initial_regs(spec_slave_addr(address, MMA845X_BASE_ADDR)),
            r.log() == i2c.log(),
    {
        Mma8x5x {
            address: address.addr(MMA845X_BASE_ADDR),
            i2c,
            ctrl_reg1: crate::Config { bits: 0 },
            ctrl_reg2: crate::Config { bits: 0 },
            ctrl_reg3: crate::Config { bits: 0 },
            pl_cfg: crate::Config { bits: BitFlags::DBCNTM },
            xyz_data_cfg: crate::Config { bits: 0 },
            _ic: PhantomData,
            _mode: PhantomData,
        }
    }
}

impl<I2C: Transport> Mma8x5x<I2C, Mma8453, Standby> {
    /// Create a new MMA8453 device handle in standby mode.
    pub fn new_mma8453(i2c: I2C, address: SlaveAddr) -> (r: Self)
        ensures
            r@ == initial_regs(spec_slave_addr(address, MMA845X_BASE_ADDR)),
            r.log() == i2c.log(),
    {
        Mma8x5x {
            address: address.addr(MMA845X_BASE_ADDR),
            i2c,
            ctrl_reg1: crate::Config { bits: 0 },
            ctrl_reg2: crate::Config { bits: 0 },
            ctrl_reg3: crate::Config { bits: 0 },
            pl_cfg: crate::Config { bits: BitFlags::DBCNTM },
            xyz_data_cfg: crate::Config { bits: 0 },
            _ic: PhantomData,
            _mode: PhantomData,
        }
    }
}

} // verus!
