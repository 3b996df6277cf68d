//! Reading acceleration data on an active device: one 6-byte burst read
//! starting at the first output register, reassembled into three big-endian
//! 16-bit words and decoded at the device's resolution. Scaling to g is a
//! division by the counts-per-g value, which depends on the configured
//! full-scale range and the device's full-scale code count.

use vstd::prelude::*;
use crate::conversion::{
    convert_10bit, convert_12bit, convert_14bit, spec_sample_10bit, spec_sample_12bit,
    spec_sample_14bit,
};
use crate::ic::{Mma8451, Mma8452, Mma8453, Mma8652, Mma8653};
use crate::mode::Active;
use crate::register_access::Register;
use crate::transport::{BusOp, Transport};
use crate::types::{Error, UnscaledMeasurement};
use crate::Mma8x5x;

verus! {

/// The value of a big-endian byte pair.
pub open spec fn be_word(hi: u8, lo: u8) -> int {
    hi * 256 + lo
}

/// The 10-bit sample held by a big-endian byte pair.
pub open spec fn sample_10bit_be(hi: u8, lo: u8) -> int {
    spec_sample_10bit((hi * 256 + lo) as u16)
}

/// The 12-bit sample held by a big-endian byte pair.
pub open spec fn sample_12bit_be(hi: u8, lo: u8) -> int {
    spec_sample_12bit((hi * 256 + lo) as u16)
}

/// The 14-bit sample held by a big-endian byte pair.
pub open spec fn sample_14bit_be(hi: u8, lo: u8) -> int {
    spec_sample_14bit((hi * 256 + lo) as u16)
}

/// The counts-per-g divisor: the full-scale code count over 2, 4 or 8, as the
/// low two bits of XYZ_DATA_CFG select +/-2g, +/-4g or +/-8g.
pub open spec fn spec_counts_per_g(cfg: u8, full_scale: u16) -> u16 {
    if cfg & 0x03 == 0 {
        full_scale / 2
    } else if cfg & 0x03 == 1 {
        full_scale / 4
    } else {
        full_scale / 8
    }
}

proof fn lemma_be_word(hi: u8, lo: u8)
    by (bit_vector)
    ensures
        ((hi as u16) << 8u16) | (lo as u16) == ((hi * 256 + lo) as u16),
        ((hi as u16) << 8u16) | (lo as u16) == hi * 256 + lo,
{
}

impl<I2C: Transport, IC> Mma8x5x<I2C, IC, Active> {
    /// One 6-byte burst read starting at OUT_X_H, reassembled into the three
    /// big-endian words for X, Y and Z.
    pub(crate) fn read_raw(&mut self) -> (res: Result<(u16, u16, u16), Error<I2C::BusError>>)
        ensures
            final(self)@ == old(self)@,
            match res {
                Ok(m) => exists|d: Seq<u8>|
                    #![auto]
                    {
                        &&& d.len() == 6
                        &&& final(self).log() == old(self).log().push(
                            BusOp::WriteRead {
                                addr: old(self)@.address,
                                sent: seq![Register::OUT_X_H],
                                received: d,
                            },
                        )
                        &&& m.0 == be_word(d[0], d[1])
                        &&& m.1 == be_word(d[2], d[3])
                        &&& m.2 == be_word(d[4], d[5])
                    },
                Err(_) => final(self).log() == old(self).log(),
            },
    {
        let out: [u8; 1] = [Register::OUT_X_H];
        proof {
            assert(out@ =~= seq![Register::OUT_X_H]);
        }
        match self.i2c.bus_write_read(self.address, &out, 6) {
            Ok(data) => {
                let x = ((data[0] as u16) << 8) | (data[1] as u16);
                let y = ((data[2] as u16) << 8) | (data[3] as u16);
                let z = ((data[4] as u16) << 8) | (data[5] as u16);
                proof {
                    lemma_be_word(data@[0], data@[1]);
                    lemma_be_word(data@[2], data@[3]);
                    lemma_be_word(data@[4], data@[5]);
                }
                Ok((x, y, z))
            },
            Err(e) => Err(Error::I2C(e)),
        }
    }
}

impl<I2C: Transport> Mma8x5x<I2C, Mma8451, Active> {
    /// Read unscaled acceleration data at the MMA8451's 14-bit resolution.
    pub fn read_unscaled(&mut self) -> (res: Result<UnscaledMeasurement, Error<I2C::BusError>>)
        ensures
            final(self)@ == old(self)@,
            match res {
                Ok(m) => exists|d: Seq<u8>|
                    #![auto]
                    {
                        &&& d.len() == 6
                        &&& final(self).log() == old(self).log().push(
                            BusOp::WriteRead {
                                addr: old(self)@.address,
                                sent: seq![Register::OUT_X_H],
                                received: d,
                            },
                        )
                        &&& m.x as int == sample_14bit_be(d[0], d[1])
                        &&& m.y as int == sample_14bit_be(d[2], d[3])
                        &&& m.z as int == sample_14bit_be(d[4], d[5])
                    },
                Err(_) => final(self).log() == old(self).log(),
            },
    {
        match self.read_raw() {
            Ok(m) => Ok(convert_14bit(m.0, m.1, m.2)),
            Err(e) => Err(e),
        }
    }

    /// The divisor that scales an unscaled sample to g at the configured
    /// range: the MMA8451's 4096 counts/g in 2g mode, halved per range step.
    pub fn counts_per_g(&self) -> (r: u16)
        ensures
            r == spec_counts_per_g(self@.xyz_data_cfg, 4096),
    {
        let full_scale: u16 = 4096;
        if self.xyz_data_cfg.bits & 0x03 == 0 {
            full_scale / 2
        } else if self.xyz_data_cfg.bits & 0x03 == 1 {
            full_scale / 4
        } else {
            full_scale / 8
        }
    }
}

impl<I2C: Transport> Mma8x5x<I2C, Mma8452, Active> {
    /// Read unscaled acceleration data at the MMA8452's 12-bit resolution.
    pub fn read_unscaled(&mut self) -> (res: Result<UnscaledMeasurement, Error<I2C::BusError>>)
        ensures
            final(self)@ == old(self)@,
            match res {
                Ok(m) => exists|d: Seq<u8>|
                    #![auto]
                    {
                        &&& d.len() == 6
                        &&& final(self).log() == old(self).log().push(
                            BusOp::WriteRead {
                                addr: old(self)@.address,
                                sent: seq![Register::OUT_X_H],
                                received: d,
                            },
                        )
                        &&& m.x as int == sample_12bit_be(d[0], d[1])
                        &&& m.y as int == sample_12bit_be(d[2], d[3])
                        &&& m.z as int == sample_12bit_be(d[4], d[5])
                    },
                Err(_) => final(self).log() == old(self).log(),
            },
    {
        match self.read_raw() {
            Ok(m) => Ok(convert_12bit(m.0, m.1, m.2)),
            Err(e) => Err(e),
        }
    }

    /// The divisor that scales an unscaled sample to g at the configured
    /// range: the MMA8452's 1024 counts/g in 2g mode, halved per range step.
    pub fn counts_per_g(&self) -> (r: u16)
        ensures
            r == spec_counts_per_g(self@.xyz_data_cfg, 1024),
    {
        let full_scale: u16 = 1024;
        if self.xyz_data_cfg.bits & 0x03 == 0 {
            full_scale / 2
        } else if self.xyz_data_cfg.bits & 0x03 == 1 {
            full_scale / 4
        } else {
            full_scale / 8
        }
    }
}

impl<I2C: Transport> Mma8x5x<I2C, Mma8453, Active> {
    /// Read unscaled acceleration data at the MMA8453's 10-bit resolution.
    pub fn read_unscaled(&mut self) -> (res: Result<UnscaledMeasurement, Error<I2C::BusError>>)
        ensures
            final(self)@ == old(self)@,
            match res {
                Ok(m) => exists|d: Seq<u8>|
                    #![auto]
                    {
                        &&& d.len() == 6
                        &&& final(self).log() == old(self).log().push(
                            BusOp::WriteRead {
                                addr: old(self)@.address,
                                sent: seq![Register::OUT_X_H],
                                received: d,
                            },
                        )
                        &&& m.x as int == sample_10bit_be(d[0], d[1])
                        &&& m.y as int == sample_10bit_be(d[2], d[3])
                        &&& m.z as int == sample_10bit_be(d[4], d[5])
                    },
                Err(_) => final(self).log() == old(self).log(),
            },
    {
        match self.read_raw() {
            Ok(m) => Ok(convert_10bit(m.0, m.1, m.2)),
            Err(e) => Err(e),
        }
    }

    /// The divisor that scales an unscaled sample to g at the configured
    /// range: the MMA8453's 256 counts/g in 2g mode, halved per range step.
    pub fn counts_per_g(&self) -> (r: u16)
        ensures
            r == spec_counts_per_g(self@.xyz_data_cfg, 256),
    {
        let full_scale: u16 = 256;
        if self.xyz_data_cfg.bits & 0x03 == 0 {
            full_scale / 2
        } else if self.xyz_data_cfg.bits & 0x03 == 1 {
            full_scale / 4
        } else {
            full_scale / 8
        }
    }
}

impl<I2C: Transport> Mma8x5x<I2C, Mma8652, Active> {
    /// Read unscaled acceleration data at the MMA8652's 12-bit resolution.
    pub fn read_unscaled(&mut self) -> (res: Result<UnscaledMeasurement, Error<I2C::BusError>>)
        ensures
            final(self)@ == old(self)@,
            match res {
                Ok(m) => exists|d: Seq<u8>|
                    #![auto]
                    {
                        &&& d.len() == 6
                        &&& final(self).log() == old(self).log().push(
                            BusOp::WriteRead {
                                addr: old(self)@.address,
                                sent: seq![Register::OUT_X_H],
                                received: d,
                            },
                        )
                        &&& m.x as int == sample_12bit_be(d[0], d[1])
                        &&& m.y as int == sample_12bit_be(d[2], d[3])
                        &&& m.z as int == sample_12bit_be(d[4], d[5])
                    },
                Err(_) => final(self).log() == old(self).log(),
            },
    {
        match self.read_raw() {
            Ok(m) => Ok(convert_12bit(m.0, m.1, m.2)),
            Err(e) => Err(e),
        }
    }

    /// The divisor that scales an unscaled sample to g at the configured
    /// range: the MMA8652's 1024 counts/g in 2g mode, halved per range step.
    pub fn counts_per_g(&self) -> (r: u16)
        ensures
            r == spec_counts_per_g(self@.xyz_data_cfg, 1024),
    {
        let full_scale: u16 = 1024;
        if self.xyz_data_cfg.bits & 0x03 == 0 {
            full_scale / 2
        } else if self.xyz_data_cfg.bits & 0x03 == 1 {
            full_scale / 4
        } else {
            full_scale / 8
        }
    }
}

impl<I2C: Transport> Mma8x5x<I2C, Mma8653, Active> {
    /// Read unscaled acceleration data at the MMA8653's 10-bit resolution.
    pub fn read_unscaled(&mut self) -> (res: Result<UnscaledMeasurement, Error<I2C::BusError>>)
        ensures
            final(self)@ == old(self)@,
            match res {
                Ok(m) => exists|d: Seq<u8>|
                    #![auto]
                    {
                        &&& d.len() == 6
                        &&& final(self).log() == old(self).log().push(
                            BusOp::WriteRead {
                                addr: old(self)@.address,
                                sent: seq![Register::OUT_X_H],
                                received: d,
                            },
                        )
                        &&& m.x as int == sample_10bit_be(d[0], d[1])
                        &&& m.y as int == sample_10bit_be(d[2], d[3])
                        &&& m.z as int == sample_10bit_be(d[4], d[5])
                    },
                Err(_) => final(self).log() == old(self).log(),
            },
    {
        match self.read_raw() {
            Ok(m) => Ok(convert_10bit(m.0, m.1, m.2)),
            Err(e) => Err(e),
        }
    }

    /// The divisor that scales an unscaled sample to g at the configured
    /// range: the MMA8653's 256 counts/g in 2g mode, halved per range step.
    pub fn counts_per_g(&self) -> (r: u16)
        ensures
            r == spec_counts_per_g(self@.xyz_data_cfg, 256),
    {
        let full_scale: u16 = 256;
        if self.xyz_data_cfg.bits & 0x03 == 0 {
            full_scale / 2
        } else if self.xyz_data_cfg.bits & 0x03 == 1 {
            full_scale / 4
        } else {
            full_scale / 8
        }
    }
}

} // verus!
