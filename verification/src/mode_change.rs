//! The mode state machine: standby handles become active handles and back,
//! each transition consuming the old handle, issuing exactly one CTRL_REG1
//! write and returning a handle tagged with the new mode. On a bus error the
//! original handle is handed back together with the error, so ownership of
//! the device is never lost.

use vstd::prelude::*;
use core::marker::PhantomData;
use crate::config::{ctrl1_with_data_rate, ctrl1_with_read_mode, odr_bits};
use crate::config_auto_sleep::{aslp_rate_bits, ctrl1_with_auto_sleep_rate};
use crate::mode::{Active, Standby};
use crate::register_access::{BitFlags, Register};
use crate::transport::{BusOp, Transport};
use crate::types::{AutoSleepDataRate, ModeChangeError, OutputDataRate, ReadMode};
use crate::{DevState, Mma8x5x};

verus! {

/// The cached state after entering active mode: the ACTIVE bit of CTRL_REG1
/// set, everything else kept.
pub open spec fn activate_regs(v: DevState) -> DevState {
    DevState { ctrl_reg1: v.ctrl_reg1 | BitFlags::ACTIVE, ..v }
}

/// The cached state after entering standby mode: the ACTIVE bit of CTRL_REG1
/// cleared, everything else kept.
pub open spec fn standby_regs(v: DevState) -> DevState {
    DevState { ctrl_reg1: v.ctrl_reg1 & !BitFlags::ACTIVE, ..v }
}

/// The one bus write that enters active mode from the cached state `v`.
pub open spec fn activate_op(v: DevState) -> BusOp {
    BusOp::Write {
        addr: v.address,
        data: seq![Register::CTRL_REG1, v.ctrl_reg1 | BitFlags::ACTIVE],
    }
}

/// The one bus write that enters standby mode from the cached state `v`.
pub open spec fn standby_op(v: DevState) -> BusOp {
    BusOp::Write {
        addr: v.address,
        data: seq![Register::CTRL_REG1, v.ctrl_reg1 & !BitFlags::ACTIVE],
    }
}

/// Going from standby to active and back issues exactly the two CTRL_REG1
/// writes — the ACTIVE bit set, then cleared — and returns the cached state
/// to exactly its original value, provided the standby state had the ACTIVE
/// bit clear (which every constructor and transition maintains).
pub proof fn lemma_mode_round_trip(v: DevState)
    requires
        v.ctrl_reg1 & BitFlags::ACTIVE == 0,
    ensures
        standby_regs(activate_regs(v)) == v,
        activate_op(v) == (BusOp::Write {
            addr: v.address,
            data: seq![Register::CTRL_REG1, v.ctrl_reg1 | BitFlags::ACTIVE],
        }),
        standby_op(activate_regs(v)) == (BusOp::Write {
            addr: v.address,
            data: seq![Register::CTRL_REG1, v.ctrl_reg1],
        }),
{
    let c = v.ctrl_reg1;
    assert(c & 1 == 0 ==> ((c | 1) & !1u8) == c) by (bit_vector);
}

/// The mode marker of a handle always matches the last-written ACTIVE bit:
/// constructors and `into_standby` leave the bit clear, `into_active` sets
/// it, and every CTRL_REG1 byte a standby-mode setter composes keeps the bit
/// clear.
pub proof fn lemma_standby_setters_keep_active_clear(
    bits: u8,
    mode: ReadMode,
    rate: OutputDataRate,
    sleep_rate: AutoSleepDataRate,
)
    requires
        bits & BitFlags::ACTIVE == 0,
    ensures
        ctrl1_with_read_mode(bits, mode) & BitFlags::ACTIVE == 0,
        ctrl1_with_data_rate(bits, rate) & BitFlags::ACTIVE == 0,
        ctrl1_with_auto_sleep_rate(bits, sleep_rate) & BitFlags::ACTIVE == 0,
{
    assert(bits & 1 == 0 ==> (bits & !2u8) & 1 == 0 && (bits | 2u8) & 1 == 0) by (bit_vector);
    let m = odr_bits(rate);
    assert(0u8 & 1 == 0 && 0x08u8 & 1 == 0 && 0x10u8 & 1 == 0 && (0x10u8 | 0x08u8) & 1 == 0
        && 0x20u8 & 1 == 0 && (0x20u8 | 0x08u8) & 1 == 0 && (0x20u8 | 0x10u8) & 1 == 0 && (0x20u8
        | 0x10u8 | 0x08u8) & 1 == 0) by (bit_vector);
    assert(bits & 1 == 0 && m & 1 == 0 ==> ((bits & !(0x08u8 | 0x10u8 | 0x20u8)) | m) & 1 == 0)
        by (bit_vector)
        requires
            bits & 1 == 0 && m & 1 == 0,
    ;
    let a = aslp_rate_bits(sleep_rate);
    assert(0x40u8 & 1 == 0 && 0x80u8 & 1 == 0 && (0x80u8 | 0x40u8) & 1 == 0) by (bit_vector);
    assert(bits & 1 == 0 && a & 1 == 0 ==> ((bits & !(0x80u8 | 0x40u8)) | a) & 1 == 0)
        by (bit_vector)
        requires
            bits & 1 == 0 && a & 1 == 0,
    ;
}

impl<I2C: Transport, IC> Mma8x5x<I2C, IC, Standby> {
    /// Change mode to active.
    pub fn into_active(self) -> (res: Result<
        Mma8x5x<I2C, IC, Active>,
        ModeChangeError<I2C::BusError, Mma8x5x<I2C, IC, Standby>>,
    >)
        ensures
            match res {
                Ok(d) => {
                    &&& d@ == activate_regs(self@)
                    &&& d.log() == self.log().push(activate_op(self@))
                },
                Err(e) => {
                    &&& e.dev@ == self@
                    &&& e.dev.log() == self.log()
                },
            },
    {
        let mut dev = self;
        let config = dev.ctrl_reg1.with_high(BitFlags::ACTIVE);
        match dev.write_reg(Register::CTRL_REG1, config.bits) {
            Err(error) => Err(ModeChangeError { error, dev }),
            Ok(()) => Ok(
                Mma8x5x {
                    i2c: dev.i2c,
                    address: dev.address,
                    ctrl_reg1: config,
                    ctrl_reg2: dev.ctrl_reg2,
                    ctrl_reg3: dev.ctrl_reg3,
                    pl_cfg: dev.pl_cfg,
                    xyz_data_cfg: dev.xyz_data_cfg,
                    _ic: PhantomData,
                    _mode: PhantomData,
                },
            ),
        }
    }
}

impl<I2C: Transport, IC> Mma8x5x<I2C, IC, Active> {
    /// Change mode to standby.
    pub fn into_standby(self) -> (res: Result<
        Mma8x5x<I2C, IC, Standby>,
        ModeChangeError<I2C::BusError, Mma8x5x<I2C, IC, Active>>,
    >)
        ensures
            match res {
                Ok(d) => {
                    &&& d@ == standby_regs(self@)
                    &&& d.log() == self.log().push(standby_op(self@))
                },
                Err(e) => {
                    &&& e.dev@ == self@
                    &&& e.dev.log() == self.log()
                },
            },
    {
        let mut dev = self;
        let config = dev.ctrl_reg1.with_low(BitFlags::ACTIVE);
        match dev.write_reg(Register::CTRL_REG1, config.bits) {
            Err(error) => Err(ModeChangeError { error, dev }),
            Ok(()) => Ok(
                Mma8x5x {
                    i2c: dev.i2c,
                    address: dev.address,
                    ctrl_reg1: config,
                    ctrl_reg2: dev.ctrl_reg2,
                    ctrl_reg3: dev.ctrl_reg3,
                    pl_cfg: dev.pl_cfg,
                    xyz_data_cfg: dev.xyz_data_cfg,
                    _ic: PhantomData,
                    _mode: PhantomData,
                },
            ),
        }
    }

    /// Reset the device (changes mode to standby): one write of the RST bit to
    /// CTRL_REG2, after which every cached register holds its power-on
    /// default (PL_CFG keeps only the debounce-mode bit, all others are zero).
    pub fn reset(self) -> (res: Result<
        Mma8x5x<I2C, IC, Standby>,
        ModeChangeError<I2C::BusError, Mma8x5x<I2C, IC, Active>>,
    >)
        ensures
            match res {
                Ok(d) => {
                    &&& d@ == (DevState {
                        address: self@.address,
                        ctrl_reg1: 0,
                        ctrl_reg2: 0,
                        ctrl_reg3: 0,
                        pl_cfg: BitFlags::DBCNTM,
                        xyz_data_cfg: 0,
                    })
                    &&& d.log() == self.log().push(
                        BusOp::Write {
                            addr: self@.address,
                            data: seq![
                                Register::CTRL_REG2,
                                self@.ctrl_reg2 | BitFlags::RST,
                            ],
                        },
                    )
                },
                Err(e) => {
                    &&& e.dev@ == self@
                    &&& e.dev.log() == self.log()
                },
            },
    {
        let mut dev = self;
        match dev.reset_internal() {
            Err(error) => Err(ModeChangeError { error, dev }),
            Ok(()) => Ok(
                Mma8x5x {
                    i2c: dev.i2c,
                    address: dev.address,
                    ctrl_reg1: dev.ctrl_reg1,
                    ctrl_reg2: dev.ctrl_reg2,
                    ctrl_reg3: dev.ctrl_reg3,
                    pl_cfg: dev.pl_cfg,
                    xyz_data_cfg: dev.xyz_data_cfg,
                    _ic: PhantomData,
                    _mode: PhantomData,
                },
            ),
        }
    }
}

} // verus!
