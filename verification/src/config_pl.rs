//! Portrait/landscape detection configuration: the detection enable bit, the
//! debounce counter mode and the debounce counter itself.

use vstd::prelude::*;
use crate::ic::{Mma8451, Mma8652};
use crate::mode::{Active, Standby};
use crate::register_access::{BitFlags, Register};
use crate::transport::{BusOp, Transport};
use crate::types::{DebounceCounterMode, Error};
use crate::{DevState, Mma8x5x};

verus! {

/// PL_CFG with the debounce-mode bit set (clear-on-invalid) or cleared
/// (decrement-on-invalid).
pub open spec fn pl_cfg_with_debounce_mode(bits: u8, mode: DebounceCounterMode) -> u8 {
    match mode {
        DebounceCounterMode::Decrement => bits & !BitFlags::DBCNTM,
        DebounceCounterMode::Clear => bits | BitFlags::DBCNTM,
    }
}

impl<I2C: Transport, IC> Mma8x5x<I2C, IC, Standby> {
    /// Enable portrait/landscape detection.
    pub fn enable_portrait_landscape_detection(&mut self) -> (res: Result<
        (),
        Error<I2C::BusError>,
    >)
        ensures
            match res {
                Ok(()) => {
                    &&& final(self)@ == (DevState {
                        pl_cfg: old(self)@.pl_cfg | BitFlags::PL_EN,
                        ..old(self)@
                    })
                    &&& final(self).log() == old(self).log().push(
                        BusOp::Write {
                            addr: old(self)@.address,
                            data: seq![Register::PL_CFG, old(self)@.pl_cfg | BitFlags::PL_EN],
                        },
                    )
                },
                Err(_) => {
                    &&& final(self)@ == old(self)@
                    &&& final(self).log() == old(self).log()
                },
            },
    {
        let config = self.pl_cfg.with_high(BitFlags::PL_EN);
        match self.write_reg(Register::PL_CFG, config.bits) {
            Ok(()) => {
                self.pl_cfg = config;
                Ok(())
            },
            Err(e) => Err(e),
        }
    }

    /// Disable portrait/landscape detection.
    pub fn disable_portrait_landscape_detection(&mut self) -> (res: Result<
        (),
        Error<I2C::BusError>,
    >)
        ensures
            match res {
                Ok(()) => {
                    &&& final(self)@ == (DevState {
                        pl_cfg: old(self)@.pl_cfg & !BitFlags::PL_EN,
                        ..old(self)@
                    })
                    &&& final(self).log() == old(self).log().push(
                        BusOp::Write {
                            addr: old(self)@.address,
                            data: seq![Register::PL_CFG, old(self)@.pl_cfg & !BitFlags::PL_EN],
                        },
                    )
                },
                Err(_) => {
                    &&& final(self)@ == old(self)@
                    &&& final(self).log() == old(self).log()
                },
            },
    {
        let config = self.pl_cfg.with_low(BitFlags::PL_EN);
        match self.write_reg(Register::PL_CFG, config.bits) {
            Ok(()) => {
                self.pl_cfg = config;
                Ok(())
            },
            Err(e) => Err(e),
        }
    }

    /// Set the portrait/landscape debounce counter mode.
    pub fn set_debounce_counter_mode(&mut self, mode: DebounceCounterMode) -> (res: Result<
        (),
        Error<I2C::BusError>,
    >)
        ensures
            match res {
                Ok(()) => {
                    &&& final(self)@ == (DevState {
                        pl_cfg: pl_cfg_with_debounce_mode(old(self)@.pl_cfg, mode),
                        ..old(self)@
                    })
                    &&& final(self).log() == old(self).log().push(
                        BusOp::Write {
                            addr: old(self)@.address,
                            data: seq![
                                Register::PL_CFG,
                                pl_cfg_with_debounce_mode(old(self)@.pl_cfg, mode),
                            ],
                        },
                    )
                },
                Err(_) => {
                    &&& final(self)@ == old(self)@
                    &&& final(self).log() == old(self).log()
                },
            },
    {
        let config = match mode {
            DebounceCounterMode::Decrement => self.pl_cfg.with_low(BitFlags::DBCNTM),
            DebounceCounterMode::Clear => self.pl_cfg.with_high(BitFlags::DBCNTM),
        };
        match self.write_reg(Register::PL_CFG, config.bits) {
            Ok(()) => {
                self.pl_cfg = config;
                Ok(())
            },
            Err(e) => Err(e),
        }
    }

    /// Set the portrait/landscape debounce counter (not cached).
    pub fn set_debounce_counter(&mut self, counter: u8) -> (res: Result<(), Error<I2C::BusError>>)
        ensures
            final(self)@ == old(self)@,
            match res {
                Ok(()) => final(self).log() == old(self).log().push(
                    BusOp::Write {
                        addr: old(self)@.address,
                        data: seq![Register::PL_COUNT, counter],
                    },
                ),
                Err(_) => final(self).log() == old(self).log(),
            },
    {
        self.set_debounce_counter_internal(counter)
    }
}

impl<I2C: Transport, IC, MODE> Mma8x5x<I2C, IC, MODE> {
    pub(crate) fn set_debounce_counter_internal(&mut self, counter: u8) -> (res: Result<
        (),
        Error<I2C::BusError>,
    >)
        ensures
            final(self)@ == old(self)@,
            match res {
                Ok(()) => final(self).log() == old(self).log().push(
                    BusOp::Write {
                        addr: old(self)@.address,
                        data: seq![Register::PL_COUNT, counter],
                    },
                ),
                Err(_) => final(self).log() == old(self).log(),
            },
    {
        self.write_reg(Register::PL_COUNT, counter)
    }
}

impl<I2C: Transport> Mma8x5x<I2C, Mma8451, Active> {
    /// Set the portrait/landscape debounce counter. The MMA8451 allows
    /// changing this register while the device is active.
    pub fn set_debounce_counter(&mut self, counter: u8) -> (res: Result<(), Error<I2C::BusError>>)
        ensures
            final(self)@ == old(self)@,
            match res {
                Ok(()) => final(self).log() == old(self).log().push(
                    BusOp::Write {
                        addr: old(self)@.address,
                        data: seq![Register::PL_COUNT, counter],
                    },
                ),
                Err(_) => final(self).log() == old(self).log(),
            },
    {
        self.set_debounce_counter_internal(counter)
    }
}

impl<I2C: Transport> Mma8x5x<I2C, Mma8652, Active> {
    /// Set the portrait/landscape debounce counter. The MMA8652 allows
    /// changing this register while the device is active.
    pub fn set_debounce_counter(&mut self, counter: u8) -> (res: Result<(), Error<I2C::BusError>>)
        ensures
            final(self)@ == old(self)@,
            match res {
                Ok(()) => final(self).log() == old(self).log().push(
                    BusOp::Write {
                        addr: old(self)@.address,
                        data: seq![Register::PL_COUNT, counter],
                    },
                ),
                Err(_) => final(self).log() == old(self).log(),
            },
    {
        self.set_debounce_counter_internal(counter)
    }
}

} // verus!
