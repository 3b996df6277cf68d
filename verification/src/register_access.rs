//! Register addresses and bit masks of the device family, and the two
//! register-level bus operations every higher-level call is built from.

use vstd::prelude::*;
use crate::transport::{BusOp, Transport};
use crate::types::Error;
use crate::Mma8x5x;

verus! {

/// Register addresses.
pub struct Register {}

impl Register {
    pub const STATUS: u8 = 0x00;
    pub const OUT_X_H: u8 = 0x01;
    pub const SYSMOD: u8 = 0x0B;
    pub const INT_SOURCE: u8 = 0x0C;
    pub const WHO_AM_I: u8 = 0x0D;
    pub const XYZ_DATA_CFG: u8 = 0x0E;
    pub const PL_STATUS: u8 = 0x10;
    pub const PL_CFG: u8 = 0x11;
    pub const PL_COUNT: u8 = 0x12;
    pub const FF_MT_CFG: u8 = 0x15;
    pub const FF_MT_SRC: u8 = 0x16;
    pub const FF_MT_THS: u8 = 0x17;
    pub const FF_MT_COUNT: u8 = 0x17;
    pub const ASLP_COUNT: u8 = 0x29;
    pub const CTRL_REG1: u8 = 0x2A;
    pub const CTRL_REG2: u8 = 0x2B;
    pub const CTRL_REG3: u8 = 0x2C;
    pub const CTRL_REG4: u8 = 0x2D;
    pub const CTRL_REG5: u8 = 0x2E;
    pub const OFF_X: u8 = 0x2F;
}

/// Bit masks within the registers.
pub struct BitFlags;

impl BitFlags {
    pub const FS0: u8 = 0x01;
    pub const FS1: u8 = 0x02;

    pub const ACTIVE: u8 = 0x01;
    pub const F_READ: u8 = 0x02;
    pub const ASLP_RATE0: u8 = 0x40;
    pub const ASLP_RATE1: u8 = 0x80;

    pub const ODR0: u8 = 0x08;
    pub const ODR1: u8 = 0x10;
    pub const ODR2: u8 = 0x20;

    pub const MODS0: u8 = 0x01;
    pub const MODS1: u8 = 0x02;
    pub const SLPE: u8 = 0x04;
    pub const SMODS0: u8 = 0x08;
    pub const SMODS1: u8 = 0x10;
    pub const RST: u8 = 0x40;
    pub const ST: u8 = 0x80;

    pub const XDR: u8 = 0x01;
    pub const YDR: u8 = 0x02;
    pub const ZDR: u8 = 0x04;
    pub const XYZDR: u8 = 0x08;
    pub const XOW: u8 = 0x10;
    pub const YOW: u8 = 0x20;
    pub const ZOW: u8 = 0x40;
    pub const XYZOW: u8 = 0x80;

    pub const PL_EN: u8 = 0x40;
    pub const DBCNTM: u8 = 0x80;

    pub const BAFRO: u8 = 0x01;
    pub const LAPO0: u8 = 0x02;
    pub const LAPO1: u8 = 0x04;
    pub const LO: u8 = 0x40;
    pub const NEWLP: u8 = 0x80;

    pub const XEFE: u8 = 0x08;
    pub const YEFE: u8 = 0x10;
    pub const ZEFE: u8 = 0x20;
    pub const OAE: u8 = 0x40;
    pub const ELE: u8 = 0x80;

    pub const XHP: u8 = 0x01;
    pub const XHE: u8 = 0x02;
    pub const YHP: u8 = 0x04;
    pub const YHE: u8 = 0x08;
    pub const ZHP: u8 = 0x10;
    pub const ZHE: u8 = 0x20;
    pub const EA: u8 = 0x80;

    pub const SRC_DRDY: u8 = 0x01;
    pub const SRC_FF_MT: u8 = 0x04;
    pub const SRC_PULSE: u8 = 0x08;
    pub const SRC_LNDPRT: u8 = 0x10;
    pub const SRC_TRANS: u8 = 0x20;
    pub const SRC_FIFO: u8 = 0x40;
    pub const SRC_ASLP: u8 = 0x80;

    pub const PP_OD: u8 = 0x01;
    pub const IPOL: u8 = 0x02;

    pub const INT_EN_DRDY: u8 = 0x01;
    pub const INT_EN_FF_MT: u8 = 0x04;
    pub const INT_EN_PULSE: u8 = 0x08;
    pub const INT_EN_LNDPRT: u8 = 0x10;
    pub const INT_EN_TRANS: u8 = 0x20;
    pub const INT_EN_FIFO: u8 = 0x40;
    pub const INT_EN_ASLP: u8 = 0x80;

    pub const INT_CFG_DRDY: u8 = 0x01;
    pub const INT_CFG_FF_MT: u8 = 0x04;
    pub const INT_CFG_PULSE: u8 = 0x08;
    pub const INT_CFG_LNDPRT: u8 = 0x10;
    pub const INT_CFG_TRANS: u8 = 0x20;
    pub const INT_CFG_FIFO: u8 = 0x40;
    pub const INT_CFG_ASLP: u8 = 0x80;

    pub const WAKE_FF_MT: u8 = 0x08;
    pub const WAKE_PULSE: u8 = 0x10;
    pub const WAKE_LNDPRT: u8 = 0x20;
    pub const WAKE_TRANS: u8 = 0x40;
}

impl<I2C: Transport, IC, MODE> Mma8x5x<I2C, IC, MODE> {
    /// Read one register: a combined write-then-read transaction that sends
    /// the register address and returns the single byte the device answered.
    pub(crate) fn read_reg(&mut self, register: u8) -> (res: Result<u8, Error<I2C::BusError>>)
        ensures
            final(self)@ == old(self)@,
            match res {
                Ok(b) => final(self).log() == old(self).log().push(
                    BusOp::WriteRead {
                        addr: old(self)@.address,
                        sent: seq![register],
                        received: seq![b],
                    },
                ),
                Err(_) => final(self).log() == old(self).log(),
            },
    {
        let out: [u8; 1] = [register];
        proof {
            assert(out@ =~= seq![register]);
        }
        match self.i2c.bus_write_read(self.address, &out, 1) {
            Ok(data) => {
                let b = data[0];
                proof {
                    assert(data@ =~= seq![b]);
                }
                Ok(b)
            }
            Err(e) => Err(Error::I2C(e)),
        }
    }

    /// Write one register: a single bus write of the register address followed
    /// by the value.
    pub(crate) fn write_reg(&mut self, register: u8, value: u8) -> (res: Result<
        (),
        Error<I2C::BusError>,
    >)
        ensures
            final(self)@ == old(self)@,
            match res {
                Ok(()) => final(self).log() == old(self).log().push(
                    BusOp::Write { addr: old(self)@.address, data: seq![register, value] },
                ),
                Err(_) => final(self).log() == old(self).log(),
            },
    {
        let out: [u8; 2] = [register, value];
        match self.i2c.bus_write(self.address, &out) {
            Ok(()) => {
                proof {
                    assert(out@ =~= seq![register, value]);
                }
                Ok(())
            }
            Err(e) => Err(Error::I2C(e)),
        }
    }
}

} // verus!
