//! Auto-sleep/wake configuration: the sleep power mode, the auto-sleep
//! enable bit, the sleep sampling rate and the inactivity count.

use vstd::prelude::*;
use crate::mode::Standby;
use crate::register_access::{BitFlags, Register};
use crate::transport::{BusOp, Transport};
use crate::types::{AutoSleepDataRate, Error, PowerMode};
use crate::{Config, DevState, Mma8x5x};

verus! {

/// The sleep power-mode field of CTRL_REG2.
pub open spec fn sleep_mods_bits(mode: PowerMode) -> u8 {
    match mode {
        PowerMode::Normal => 0,
        PowerMode::LowNoiseLowPower => BitFlags::SMODS0,
        PowerMode::HighResolution => BitFlags::SMODS1,
        PowerMode::LowPower => BitFlags::SMODS1 | BitFlags::SMODS0,
    }
}

/// CTRL_REG2 with the sleep power-mode field replaced.
pub open spec fn ctrl2_with_sleep_power_mode(bits: u8, mode: PowerMode) -> u8 {
    (bits & !(BitFlags::SMODS0 | BitFlags::SMODS1)) | sleep_mods_bits(mode)
}

/// The auto-sleep sampling-rate field of CTRL_REG1.
pub open spec fn aslp_rate_bits(rate: AutoSleepDataRate) -> u8 {
    match rate {
        AutoSleepDataRate::Hz50 => 0,
        AutoSleepDataRate::Hz12_5 => BitFlags::ASLP_RATE0,
        AutoSleepDataRate::Hz6_25 => BitFlags::ASLP_RATE1,
        AutoSleepDataRate::Hz1_56 => BitFlags::ASLP_RATE1 | BitFlags::ASLP_RATE0,
    }
}

/// CTRL_REG1 with the auto-sleep sampling-rate field replaced.
pub open spec fn ctrl1_with_auto_sleep_rate(bits: u8, rate: AutoSleepDataRate) -> u8 {
    (bits & !(BitFlags::ASLP_RATE1 | BitFlags::ASLP_RATE0)) | aslp_rate_bits(rate)
}

impl<I2C: Transport, IC> Mma8x5x<I2C, IC, Standby> {
    /// Set the power mode used while in sleep mode.
    pub fn set_sleep_power_mode(&mut self, power_mode: PowerMode) -> (res: Result<
        (),
        Error<I2C::BusError>,
    >)
        ensures
            match res {
                Ok(()) => {
                    &&& final(self)@ == (DevState {
                        ctrl_reg2: ctrl2_with_sleep_power_mode(old(self)@.ctrl_reg2, power_mode),
                        ..old(self)@
                    })
                    &&& final(self).log() == old(self).log().push(
                        BusOp::Write {
                            addr: old(self)@.address,
                            data: seq![
                                Register::CTRL_REG2,
                                ctrl2_with_sleep_power_mode(old(self)@.ctrl_reg2, power_mode),
                            ],
                        },
                    )
                },
                Err(_) => {
                    &&& final(self)@ == old(self)@
                    &&& final(self).log() == old(self).log()
                },
            },
    {
        let bits = self.ctrl_reg2.bits & !(BitFlags::SMODS0 | BitFlags::SMODS1);
        let mask = match power_mode {
            PowerMode::Normal => 0,
            PowerMode::LowNoiseLowPower => BitFlags::SMODS0,
            PowerMode::HighResolution => BitFlags::SMODS1,
            PowerMode::LowPower => BitFlags::SMODS1 | BitFlags::SMODS0,
        };
        let bits = bits | mask;
        match self.write_reg(Register::CTRL_REG2, bits) {
            Ok(()) => {
                self.ctrl_reg2 = Config { bits };
                Ok(())
            },
            Err(e) => Err(e),
        }
    }

    /// Enable auto-sleep mode.
    pub fn enable_auto_sleep(&mut self) -> (res: Result<(), Error<I2C::BusError>>)
        ensures
            match res {
                Ok(()) => {
                    &&& final(self)@ == (DevState {
                        ctrl_reg2: old(self)@.ctrl_reg2 | BitFlags::SLPE,
                        ..old(self)@
                    })
                    &&& final(self).log() == old(self).log().push(
                        BusOp::Write {
                            addr: old(self)@.address,
                            data: seq![Register::CTRL_REG2, old(self)@.ctrl_reg2 | BitFlags::SLPE],
                        },
                    )
                },
                Err(_) => {
                    &&& final(self)@ == old(self)@
                    &&& final(self).log() == old(self).log()
                },
            },
    {
        let config = self.ctrl_reg2.with_high(BitFlags::SLPE);
        match self.write_reg(Register::CTRL_REG2, config.bits) {
            Ok(()) => {
                self.ctrl_reg2 = config;
                Ok(())
            },
            Err(e) => Err(e),
        }
    }

    /// Disable auto-sleep mode.
    pub fn disable_auto_sleep(&mut self) -> (res: Result<(), Error<I2C::BusError>>)
        ensures
            match res {
                Ok(()) => {
                    &&& final(self)@ == (DevState {
                        ctrl_reg2: old(self)@.ctrl_reg2 & !BitFlags::SLPE,
                        ..old(self)@
                    })
                    &&& final(self).log() == old(self).log().push(
                        BusOp::Write {
                            addr: old(self)@.address,
                            data: seq![
                                Register::CTRL_REG2,
                                old(self)@.ctrl_reg2 & !BitFlags::SLPE,
                            ],
                        },
                    )
                },
                Err(_) => {
                    &&& final(self)@ == old(self)@
                    &&& final(self).log() == old(self).log()
                },
            },
    {
        let config = self.ctrl_reg2.with_low(BitFlags::SLPE);
        match self.write_reg(Register::CTRL_REG2, config.bits) {
            Ok(()) => {
                self.ctrl_reg2 = config;
                Ok(())
            },
            Err(e) => Err(e),
        }
    }

    /// Set the sampling rate used in auto-sleep mode.
    pub fn set_auto_sleep_data_rate(&mut self, rate: AutoSleepDataRate) -> (res: Result<
        (),
        Error<I2C::BusError>,
    >)
        ensures
            match res {
                Ok(()) => {
                    &&& final(self)@ == (DevState {
                        ctrl_reg1: ctrl1_with_auto_sleep_rate(old(self)@.ctrl_reg1, rate),
                        ..old(self)@
                    })
                    &&& final(self).log() == old(self).log().push(
                        BusOp::Write {
                            addr: old(self)@.address,
                            data: seq![
                                Register::CTRL_REG1,
                                ctrl1_with_auto_sleep_rate(old(self)@.ctrl_reg1, rate),
                            ],
                        },
                    )
                },
                Err(_) => {
                    &&& final(self)@ == old(self)@
                    &&& final(self).log() == old(self).log()
                },
            },
    {
        let bits = self.ctrl_reg1.bits & !(BitFlags::ASLP_RATE1 | BitFlags::ASLP_RATE0);
        let mask = match rate {
            AutoSleepDataRate::Hz50 => 0,
            AutoSleepDataRate::Hz12_5 => BitFlags::ASLP_RATE0,
            AutoSleepDataRate::Hz6_25 => BitFlags::ASLP_RATE1,
            AutoSleepDataRate::Hz1_56 => BitFlags::ASLP_RATE1 | BitFlags::ASLP_RATE0,
        };
        let bits = bits | mask;
        match self.write_reg(Register::CTRL_REG1, bits) {
            Ok(()) => {
                self.ctrl_reg1 = Config { bits };
                Ok(())
            },
            Err(e) => Err(e),
        }
    }

    /// Set the auto-sleep/wake inactivity count (not cached).
    pub fn set_auto_sleep_count(&mut self, count: u8) -> (res: Result<(), Error<I2C::BusError>>)
        ensures
            final(self)@ == old(self)@,
            match res {
                Ok(()) => final(self).log() == old(self).log().push(
                    BusOp::Write {
                        addr: old(self)@.address,
                        data: seq![Register::ASLP_COUNT, count],
                    },
                ),
                Err(_) => final(self).log() == old(self).log(),
            },
    {
        self.write_reg(Register::ASLP_COUNT, count)
    }
}

} // verus!
