//! Standby-mode configuration: full-scale range, read mode, offset
//! correction, output data rate, wake power mode, reset and self-test. Each
//! setter composes the new register byte from the cached value, writes it,
//! and replaces the cache only on success; after a failed write the cache
//! keeps the pre-write value and the hardware register contents are unknown.

use vstd::prelude::*;
use crate::mode::Standby;
use crate::register_access::{BitFlags, Register};
use crate::transport::{BusOp, Transport};
use crate::types::{Error, GScale, OutputDataRate, PowerMode, ReadMode};
use crate::{Config, DevState, Mma8x5x};

verus! {

/// XYZ_DATA_CFG with the full-scale field set for the chosen range: FS bits
/// 00 for +/-2g, 01 for +/-4g, 10 for +/-8g.
pub open spec fn xyz_cfg_with_scale(bits: u8, scale: GScale) -> u8 {
    match scale {
        GScale::G2 => (bits & !BitFlags::FS1) & !BitFlags::FS0,
        GScale::G4 => (bits & !BitFlags::FS1) | BitFlags::FS0,
        GScale::G8 => (bits | BitFlags::FS1) & !BitFlags::FS0,
    }
}

/// CTRL_REG1 with the fast-read bit set or cleared.
pub open spec fn ctrl1_with_read_mode(bits: u8, mode: ReadMode) -> u8 {
    match mode {
        ReadMode::Normal => bits & !BitFlags::F_READ,
        ReadMode::Fast => bits | BitFlags::F_READ,
    }
}

/// The output-data-rate field of CTRL_REG1, exactly as documented: 800 Hz is
/// all bits clear, 400 Hz is ODR0, 200 Hz is ODR1, 100 Hz is ODR1|ODR0,
/// 50 Hz is ODR2, 12.5 Hz is ODR2|ODR0, 6.25 Hz is ODR2|ODR1 and 1.56 Hz is
/// ODR2|ODR1|ODR0.
pub open spec fn odr_bits(rate: OutputDataRate) -> u8 {
    match rate {
        OutputDataRate::Hz800 => 0,
        OutputDataRate::Hz400 => BitFlags::ODR0,
        OutputDataRate::Hz200 => BitFlags::ODR1,
        OutputDataRate::Hz100 => BitFlags::ODR1 | BitFlags::ODR0,
        OutputDataRate::Hz50 => BitFlags::ODR2,
        OutputDataRate::Hz12_5 => BitFlags::ODR2 | BitFlags::ODR0,
        OutputDataRate::Hz6_25 => BitFlags::ODR2 | BitFlags::ODR1,
        OutputDataRate::Hz1_56 => BitFlags::ODR2 | BitFlags::ODR1 | BitFlags::ODR0,
    }
}

/// CTRL_REG1 with the output-data-rate field replaced.
pub open spec fn ctrl1_with_data_rate(bits: u8, rate: OutputDataRate) -> u8 {
    (bits & !(BitFlags::ODR0 | BitFlags::ODR1 | BitFlags::ODR2)) | odr_bits(rate)
}

/// The wake power-mode field of CTRL_REG2.
pub open spec fn wake_mods_bits(mode: PowerMode) -> u8 {
    match mode {
        PowerMode::Normal => 0,
        PowerMode::LowNoiseLowPower => BitFlags::MODS0,
        PowerMode::HighResolution => BitFlags::MODS1,
        PowerMode::LowPower => BitFlags::MODS1 | BitFlags::MODS0,
    }
}

/// CTRL_REG2 with the wake power-mode field replaced.
pub open spec fn ctrl2_with_wake_power_mode(bits: u8, mode: PowerMode) -> u8 {
    (bits & !(BitFlags::MODS0 | BitFlags::MODS1)) | wake_mods_bits(mode)
}

/// Replacing a register field twice with the same value composes the same
/// byte both times.
proof fn lemma_field_update_idempotent(bits: u8, m: u8, mask: u8)
    by (bit_vector)
    requires
        m & !mask == 0,
    ensures
        (((bits & !mask) | m) & !mask) | m == (bits & !mask) | m,
{
}

/// The control byte emitted for an output data rate is a pure function of
/// the rate field: setting the same rate again composes exactly the same
/// CTRL_REG1 byte, whatever the other bits hold, so the same bus write is
/// issued each time.
pub proof fn lemma_data_rate_idempotent(bits: u8, rate: OutputDataRate)
    ensures
        ctrl1_with_data_rate(ctrl1_with_data_rate(bits, rate), rate) == ctrl1_with_data_rate(
            bits,
            rate,
        ),
{
    assert(0u8 & !(0x08u8 | 0x10u8 | 0x20u8) == 0 && 0x08u8 & !(0x08u8 | 0x10u8 | 0x20u8) == 0
        && 0x10u8 & !(0x08u8 | 0x10u8 | 0x20u8) == 0 && (0x10u8 | 0x08u8) & !(0x08u8 | 0x10u8
        | 0x20u8) == 0 && 0x20u8 & !(0x08u8 | 0x10u8 | 0x20u8) == 0 && (0x20u8 | 0x08u8) & !(0x08u8
        | 0x10u8 | 0x20u8) == 0 && (0x20u8 | 0x10u8) & !(0x08u8 | 0x10u8 | 0x20u8) == 0 && (0x20u8
        | 0x10u8 | 0x08u8) & !(0x08u8 | 0x10u8 | 0x20u8) == 0) by (bit_vector);
    lemma_field_update_idempotent(
        bits,
        odr_bits(rate),
        BitFlags::ODR0 | BitFlags::ODR1 | BitFlags::ODR2,
    );
}

impl<I2C: Transport, IC> Mma8x5x<I2C, IC, Standby> {
    /// Set G scale: +/-2g, +/-4g, +/-8g.
    pub fn set_scale(&mut self, scale: GScale) -> (res: Result<(), Error<I2C::BusError>>)
        ensures
            match res {
                Ok(()) => {
                    &&& final(self)@ == (DevState {
                        xyz_data_cfg: xyz_cfg_with_scale(old(self)@.xyz_data_cfg, scale),
                        ..old(self)@
                    })
                    &&& final(self).log() == old(self).log().push(
                        BusOp::Write {
                            addr: old(self)@.address,
                            data: seq![
                                Register::XYZ_DATA_CFG,
                                xyz_cfg_with_scale(old(self)@.xyz_data_cfg, scale),
                            ],
                        },
                    )
                },
                Err(_) => {
                    &&& final(self)@ == old(self)@
                    &&& final(self).log() == old(self).log()
                },
            },
    {
        let config = match scale {
            GScale::G2 => self.xyz_data_cfg.with_low(BitFlags::FS1).with_low(BitFlags::FS0),
            GScale::G4 => self.xyz_data_cfg.with_low(BitFlags::FS1).with_high(BitFlags::FS0),
            GScale::G8 => self.xyz_data_cfg.with_high(BitFlags::FS1).with_low(BitFlags::FS0),
        };
        match self.write_reg(Register::XYZ_DATA_CFG, config.bits) {
            Ok(()) => {
                self.xyz_data_cfg = config;
                Ok(())
            },
            Err(e) => Err(e),
        }
    }

    /// Set read mode (normal/fast).
    pub fn set_read_mode(&mut self, mode: ReadMode) -> (res: Result<(), Error<I2C::BusError>>)
        ensures
            match res {
                Ok(()) => {
                    &&& final(self)@ == (DevState {
                        ctrl_reg1: ctrl1_with_read_mode(old(self)@.ctrl_reg1, mode),
                        ..old(self)@
                    })
                    &&& final(self).log() == old(self).log().push(
                        BusOp::Write {
                            addr: old(self)@.address,
                            data: seq![
                                Register::CTRL_REG1,
                                ctrl1_with_read_mode(old(self)@.ctrl_reg1, mode),
                            ],
                        },
                    )
                },
                Err(_) => {
                    &&& final(self)@ == old(self)@
                    &&& final(self).log() == old(self).log()
                },
            },
    {
        let config = match mode {
            ReadMode::Normal => self.ctrl_reg1.with_low(BitFlags::F_READ),
            ReadMode::Fast => self.ctrl_reg1.with_high(BitFlags::F_READ),
        };
        match self.write_reg(Register::CTRL_REG1, config.bits) {
            Ok(()) => {
                self.ctrl_reg1 = config;
                Ok(())
            },
            Err(e) => Err(e),
        }
    }

    /// Set the offset correction: one 4-byte burst write of the three signed
    /// offsets as raw bytes. The resolution is 1.96 mg/LSB and the
    /// compensation range is +/-250 mg; nothing is cached.
    pub fn set_offset_correction(&mut self, x: i8, y: i8, z: i8) -> (res: Result<
        (),
        Error<I2C::BusError>,
    >)
        ensures
            final(self)@ == old(self)@,
            match res {
                Ok(()) => final(self).log() == old(self).log().push(
                    BusOp::Write {
                        addr: old(self)@.address,
                        data: seq![Register::OFF_X, x as u8, y as u8, z as u8],
                    },
                ),
                Err(_) => final(self).log() == old(self).log(),
            },
    {
        let out: [u8; 4] = [Register::OFF_X, x as u8, y as u8, z as u8];
        proof {
            assert(out@ =~= seq![Register::OFF_X, x as u8, y as u8, z as u8]);
        }
        match self.i2c.bus_write(self.address, &out) {
            Ok(()) => Ok(()),
            Err(e) => Err(Error::I2C(e)),
        }
    }

    /// Set the output data rate in wake mode.
    pub fn set_data_rate(&mut self, rate: OutputDataRate) -> (res: Result<
        (),
        Error<I2C::BusError>,
    >)
        ensures
            match res {
                Ok(()) => {
                    &&& final(self)@ == (DevState {
                        ctrl_reg1: ctrl1_with_data_rate(old(self)@.ctrl_reg1, rate),
                        ..old(self)@
                    })
                    &&& final(self).log() == old(self).log().push(
                        BusOp::Write {
                            addr: old(self)@.address,
                            data: seq![
                                Register::CTRL_REG1,
                                ctrl1_with_data_rate(old(self)@.ctrl_reg1, rate),
                            ],
                        },
                    )
                },
                Err(_) => {
                    &&& final(self)@ == old(self)@
                    &&& final(self).log() == old(self).log()
                },
            },
    {
        let bits = self.ctrl_reg1.bits & !(BitFlags::ODR0 | BitFlags::ODR1 | BitFlags::ODR2);
        let mask = match rate {
            OutputDataRate::Hz800 => 0,
            OutputDataRate::Hz400 => BitFlags::ODR0,
            OutputDataRate::Hz200 => BitFlags::ODR1,
            OutputDataRate::Hz100 => BitFlags::ODR1 | BitFlags::ODR0,
            OutputDataRate::Hz50 => BitFlags::ODR2,
            OutputDataRate::Hz12_5 => BitFlags::ODR2 | BitFlags::ODR0,
            OutputDataRate::Hz6_25 => BitFlags::ODR2 | BitFlags::ODR1,
            OutputDataRate::Hz1_56 => BitFlags::ODR2 | BitFlags::ODR1 | BitFlags::ODR0,
        };
        let bits = bits | mask;
        match self.write_reg(Register::CTRL_REG1, bits) {
            Ok(()) => {
                self.ctrl_reg1 = Config { bits };
                Ok(())
            },
            Err(e) => Err(e),
        }
    }

    /// Set the power mode in wake mode.
    pub fn set_wake_power_mode(&mut self, power_mode: PowerMode) -> (res: Result<
        (),
        Error<I2C::BusError>,
    >)
        ensures
            match res {
                Ok(()) => {
                    &&& final(self)@ == (DevState {
                        ctrl_reg2: ctrl2_with_wake_power_mode(old(self)@.ctrl_reg2, power_mode),
                        ..old(self)@
                    })
                    &&& final(self).log() == old(self).log().push(
                        BusOp::Write {
                            addr: old(self)@.address,
                            data: seq![
                                Register::CTRL_REG2,
                                ctrl2_with_wake_power_mode(old(self)@.ctrl_reg2, power_mode),
                            ],
                        },
                    )
                },
                Err(_) => {
                    &&& final(self)@ == old(self)@
                    &&& final(self).log() == old(self).log()
                },
            },
    {
        let bits = self.ctrl_reg2.bits & !(BitFlags::MODS0 | BitFlags::MODS1);
        let mask = match power_mode {
            PowerMode::Normal => 0,
            PowerMode::LowNoiseLowPower => BitFlags::MODS0,
            PowerMode::HighResolution => BitFlags::MODS1,
            PowerMode::LowPower => BitFlags::MODS1 | BitFlags::MODS0,
        };
        let bits = bits | mask;
        match self.write_reg(Register::CTRL_REG2, bits) {
            Ok(()) => {
                self.ctrl_reg2 = Config { bits };
                Ok(())
            },
            Err(e) => Err(e),
        }
    }

    /// Reset the device: one write of the RST bit to CTRL_REG2; on success
    /// every cached register returns to its power-on default. The device does
    /// not acknowledge bus transactions for about half a millisecond after a
    /// reset; waiting that out is the caller's responsibility.
    pub fn reset(&mut self) -> (res: Result<(), Error<I2C::BusError>>)
        ensures
            match res {
                Ok(()) => {
                    &&& final(self)@ == (DevState {
                        address: old(self)@.address,
                        ctrl_reg1: 0,
                        ctrl_reg2: 0,
                        ctrl_reg3: 0,
                        pl_cfg: BitFlags::DBCNTM,
                        xyz_data_cfg: 0,
                    })
                    &&& final(self).log() == old(self).log().push(
                        BusOp::Write {
                            addr: old(self)@.address,
                            data: seq![
                                Register::CTRL_REG2,
                                old(self)@.ctrl_reg2 | BitFlags::RST,
                            ],
                        },
                    )
                },
                Err(_) => {
                    &&& final(self)@ == old(self)@
                    &&& final(self).log() == old(self).log()
                },
            },
    {
        self.reset_internal()
    }

    /// Enable self-test mode.
    pub fn enable_self_test(&mut self) -> (res: Result<(), Error<I2C::BusError>>)
        ensures
            match res {
                Ok(()) => {
                    &&& final(self)@ == (DevState {
                        ctrl_reg2: old(self)@.ctrl_reg2 | BitFlags::ST,
                        ..old(self)@
                    })
                    &&& final(self).log() == old(self).log().push(
                        BusOp::Write {
                            addr: old(self)@.address,
                            data: seq![Register::CTRL_REG2, old(self)@.ctrl_reg2 | BitFlags::ST],
                        },
                    )
                },
                Err(_) => {
                    &&& final(self)@ == old(self)@
                    &&& final(self).log() == old(self).log()
                },
            },
    {
        let config = self.ctrl_reg2.with_high(BitFlags::ST);
        match self.write_reg(Register::CTRL_REG2, config.bits) {
            Ok(()) => {
                self.ctrl_reg2 = config;
                Ok(())
            },
            Err(e) => Err(e),
        }
    }

    /// Disable self-test mode.
    pub fn disable_self_test(&mut self) -> (res: Result<(), Error<I2C::BusError>>)
        ensures
            match res {
                Ok(()) => {
                    &&& final(self)@ == (DevState {
                        ctrl_reg2: old(self)@.ctrl_reg2 & !BitFlags::ST,
                        ..old(self)@
                    })
                    &&& final(self).log() == old(self).log().push(
                        BusOp::Write {
                            addr: old(self)@.address,
                            data: seq![Register::CTRL_REG2, old(self)@.ctrl_reg2 & !BitFlags::ST],
                        },
                    )
                },
                Err(_) => {
                    &&& final(self)@ == old(self)@
                    &&& final(self).log() == old(self).log()
                },
            },
    {
        let config = self.ctrl_reg2.with_low(BitFlags::ST);
        match self.write_reg(Register::CTRL_REG2, config.bits) {
            Ok(()) => {
                self.ctrl_reg2 = config;
                Ok(())
            },
            Err(e) => Err(e),
        }
    }
}

impl<I2C: Transport, IC, MODE> Mma8x5x<I2C, IC, MODE> {
    /// Write the RST bit to CTRL_REG2 and, on success, return every cached
    /// register to its power-on default.
    pub(crate) fn reset_internal(&mut self) -> (res: Result<(), Error<I2C::BusError>>)
        ensures
            match res {
                Ok(()) => {
                    &&& final(self)@ == (DevState {
                        address: old(self)@.address,
                        ctrl_reg1: 0,
                        ctrl_reg2: 0,
                        ctrl_reg3: 0,
                        pl_cfg: BitFlags::DBCNTM,
                        xyz_data_cfg: 0,
                    })
                    &&& final(self).log() == old(self).log().push(
                        BusOp::Write {
                            addr: old(self)@.address,
                            data: seq![
                                Register::CTRL_REG2,
                                old(self)@.ctrl_reg2 | BitFlags::RST,
                            ],
                        },
                    )
                },
                Err(_) => {
                    &&& final(self)@ == old(self)@
                    &&& final(self).log() == old(self).log()
                },
            },
    {
        let config = self.ctrl_reg2.with_high(BitFlags::RST);
        match self.write_reg(Register::CTRL_REG2, config.bits) {
            Ok(()) => {
                self.ctrl_reg1 = Config { bits: 0 };
                self.ctrl_reg2 = Config { bits: 0 };
                self.ctrl_reg3 = Config { bits: 0 };
                self.pl_cfg = Config { bits: BitFlags::DBCNTM };
                self.xyz_data_cfg = Config { bits: 0 };
                Ok(())
            },
            Err(e) => Err(e),
        }
    }
}

} // verus!
