//! Operations available in every mode: destroying the handle, reading the
//! device ID and reading the offset correction registers.

use vstd::prelude::*;
use crate::register_access::Register;
use crate::transport::{BusOp, Transport};
use crate::types::Error;
use crate::Mma8x5x;

verus! {

/// The signed value an 8-bit register holds in two's complement.
pub open spec fn as_signed8(b: u8) -> int {
    if b >= 0x80 {
        b - 0x100
    } else {
        b as int
    }
}

proof fn lemma_u8_as_i8(b: u8)
    by (bit_vector)
    ensures
        (b as i8) as int == if b >= 0x80 {
            b - 0x100
        } else {
            b as int
        },
{
}

impl<I2C: Transport, IC, MODE> Mma8x5x<I2C, IC, MODE> {
    /// Destroy the driver instance and return the bus instance.
    pub fn destroy(self) -> (r: I2C)
        ensures
            r.log() == self.log(),
    {
        self.i2c
    }

    /// Return the device ID (WHO_AM_I register), exactly the byte the device
    /// answered.
    pub fn device_id(&mut self) -> (res: Result<u8, Error<I2C::BusError>>)
        ensures
            final(self)@ == old(self)@,
            match res {
                Ok(id) => final(self).log() == old(self).log().push(
                    BusOp::WriteRead {
                        addr: old(self)@.address,
                        sent: seq![Register::WHO_AM_I],
                        received: seq![id],
                    },
                ),
                Err(_) => final(self).log() == old(self).log(),
            },
    {
        self.read_reg(Register::WHO_AM_I)
    }

    /// Get the offset correction for axes X, Y and Z: one 3-byte burst read
    /// starting at OFF_X, each byte a signed two's-complement offset.
    pub fn offset_correction(&mut self) -> (res: Result<(i8, i8, i8), Error<I2C::BusError>>)
        ensures
            final(self)@ == old(self)@,
            match res {
                Ok(o) => exists|d: Seq<u8>|
                    #![auto]
                    {
                        &&& d.len() == 3
                        &&& final(self).log() == old(self).log().push(
                            BusOp::WriteRead {
                                addr: old(self)@.address,
                                sent: seq![Register::OFF_X],
                                received: d,
                            },
                        )
                        &&& o.0 as int == as_signed8(d[0])
                        &&& o.1 as int == as_signed8(d[1])
                        &&& o.2 as int == as_signed8(d[2])
                    },
                Err(_) => final(self).log() == old(self).log(),
            },
    {
        let out: [u8; 1] = [Register::OFF_X];
        proof {
            assert(out@ =~= seq![Register::OFF_X]);
        }
        match self.i2c.bus_write_read(self.address, &out, 3) {
            Ok(data) => {
                let o = (data[0] as i8, data[1] as i8, data[2] as i8);
                proof {
                    lemma_u8_as_i8(data@[0]);
                    lemma_u8_as_i8(data@[1]);
                    lemma_u8_as_i8(data@[2]);
                }
                Ok(o)
            },
            Err(e) => Err(Error::I2C(e)),
        }
    }
}

} // verus!
