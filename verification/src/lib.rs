//! Register-level driver for the MMA8451, MMA8452, MMA8453, MMA8652 and
//! MMA8653 tri-axis accelerometers.
//!
//! The driver translates typed operations (set the full-scale range, read a
//! measurement, enter active mode) into exact byte sequences written to and
//! read from numbered device registers over a two-wire bus, and decodes raw
//! register bytes back into typed results.
//!
//! The IC variant and the operating mode are part of the device handle's
//! type: configuration calls exist only on standby handles and measurement
//! calls only on active handles, so a call in the wrong mode is rejected at
//! compile time. A shadow copy of each writable control register is kept in
//! the handle, so bit-level setters compose the new byte in memory without a
//! bus read; the cache is updated only together with a successful write.
//!
//! Every operation's contract states the exact transactions it appends to the
//! transport's history and the exact new cached register values, for the
//! success case and for the failure case.

use vstd::prelude::*;

pub mod common;
pub mod config;
pub mod config_auto_sleep;
pub mod config_ff_mt;
pub mod config_int;
pub mod config_pl;
pub mod conversion;
pub mod ic;
pub mod mma845x;
pub mod mma865x;
pub mod mock;
pub mod mode;
pub mod mode_change;
pub mod read;
pub mod read_status;
pub mod register_access;
pub mod transport;
pub mod types;

pub use config_int::{
    get_enabled_int_reg, get_int_routes_reg, get_int_source_pin_route_reg, get_wake_int_mask,
};
pub use conversion::{convert_10bit, convert_12bit, convert_14bit};
pub use read_status::{get_interrupt_status, get_pl_status};
pub use register_access::{BitFlags, Register};
pub use transport::{BusOp, Transport};
pub use types::{
    AutoSleepDataRate, DataStatus, DebounceCounterMode, EnabledInterrupts, Error,
    FreefallMotionAxisActivity, FreefallMotionConfiguration, FreefallMotionDebounceMode,
    FreefallMotionDetectionMode, FreefallMotionSource, FrontBackOrientation, GScale,
    InterruptPinConfiguration, InterruptPinPolarity, InterruptPinRoutes, InterruptSourcePinRoute,
    InterruptStatus, ModeChangeError, OutputDataRate, PortraitLandscapeOrientation,
    PortraitLandscapeStatus, PowerMode, ReadMode, SlaveAddr, SystemMode, UnscaledMeasurement,
    WakeInterrupts, MMA845X_BASE_ADDR,
};

use core::marker::PhantomData;

verus! {

/// The cached driver state: the resolved bus address and the shadow copy of
/// each writable control register. This is the abstract value of a device
/// handle; the contracts of every operation are stated over it.
pub struct DevState {
    /// Resolved 7-bit bus address.
    pub address: u8,
    /// Cached CTRL_REG1 value.
    pub ctrl_reg1: u8,
    /// Cached CTRL_REG2 value.
    pub ctrl_reg2: u8,
    /// Cached CTRL_REG3 value.
    pub ctrl_reg3: u8,
    /// Cached PL_CFG value.
    pub pl_cfg: u8,
    /// Cached XYZ_DATA_CFG value.
    pub xyz_data_cfg: u8,
}

/// MMA8x5x device driver.
///
/// `IC` selects the device variant and `MODE` the current operating mode;
/// both are zero-sized markers.
#[derive(Debug)]
pub struct Mma8x5x<I2C, IC, MODE> {
    /// The concrete two-wire bus implementation.
    i2c: I2C,
    address: u8,
    ctrl_reg1: Config,
    ctrl_reg2: Config,
    ctrl_reg3: Config,
    pl_cfg: Config,
    xyz_data_cfg: Config,
    _ic: PhantomData<IC>,
    _mode: PhantomData<MODE>,
}

/// One cached control register.
#[derive(Debug, Clone, Copy, PartialEq, Eq, Structural)]
pub(crate) struct Config {
    pub(crate) bits: u8,
}

impl Config {
    pub(crate) fn with_high(self, mask: u8) -> (r: Self)
        ensures
            r.bits == self.bits | mask,
    {
        Config { bits: self.bits | mask }
    }

    pub(crate) fn with_low(self, mask: u8) -> (r: Self)
        ensures
            r.bits == self.bits & !mask,
    {
        Config { bits: self.bits & !mask }
    }

    pub(crate) fn is_high(&self, mask: u8) -> (r: bool)
        ensures
            r == ((self.bits & mask) != 0),
    {
        (self.bits & mask) != 0
    }
}

impl<I2C, IC, MODE> View for Mma8x5x<I2C, IC, MODE> {
    type V = DevState;

    closed spec fn view(&self) -> DevState {
        DevState {
            address: self.address,
            ctrl_reg1: self.ctrl_reg1.bits,
            ctrl_reg2: self.ctrl_reg2.bits,
            ctrl_reg3: self.ctrl_reg3.bits,
            pl_cfg: self.pl_cfg.bits,
            xyz_data_cfg: self.xyz_data_cfg.bits,
        }
    }
}

impl<I2C: Transport, IC, MODE> Mma8x5x<I2C, IC, MODE> {
    /// The history of transactions the underlying bus completed successfully.
    pub closed spec fn log(&self) -> Seq<transport::BusOp> {
        self.i2c.log()
    }
}

} // verus!
