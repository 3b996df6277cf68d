//! Status decoding: the system operating mode, the data-ready flags, the
//! portrait/landscape status and the interrupt sources. Each operation is one
//! register read followed by a pure decode of the byte.

use vstd::prelude::*;
use crate::register_access::{BitFlags, Register};
use crate::transport::{BusOp, Transport};
use crate::types::{
    DataStatus, Error, FrontBackOrientation, InterruptStatus, PortraitLandscapeOrientation,
    PortraitLandscapeStatus, SystemMode,
};
use crate::Mma8x5x;

verus! {

/// The system mode held in the low two bits of SYSMOD: 0 standby, 1 wake,
/// anything else sleep.
pub open spec fn spec_system_mode(b: u8) -> SystemMode {
    if b & 0x03 == 0 {
        SystemMode::Standby
    } else if b & 0x03 == 1 {
        SystemMode::Wake
    } else {
        SystemMode::Sleep
    }
}

/// The eight independent data-status flags of the STATUS register.
pub open spec fn spec_data_status(b: u8) -> DataStatus {
    DataStatus {
        xyz_overwrite: b & BitFlags::XYZOW != 0,
        x_overwrite: b & BitFlags::XOW != 0,
        y_overwrite: b & BitFlags::YOW != 0,
        z_overwrite: b & BitFlags::ZOW != 0,
        xyz_new_data: b & BitFlags::XYZDR != 0,
        x_new_data: b & BitFlags::XDR != 0,
        y_new_data: b & BitFlags::YDR != 0,
        z_new_data: b & BitFlags::ZDR != 0,
    }
}

/// The orientation held in the two LAPO bits of PL_STATUS: 00 portrait up,
/// 01 portrait down, 10 landscape right, 11 landscape left.
pub open spec fn spec_pl_orientation(b: u8) -> PortraitLandscapeOrientation {
    if b & (BitFlags::LAPO0 | BitFlags::LAPO1) == 0 {
        PortraitLandscapeOrientation::PortraitUp
    } else if b & (BitFlags::LAPO0 | BitFlags::LAPO1) == BitFlags::LAPO0 {
        PortraitLandscapeOrientation::PortraitDown
    } else if b & (BitFlags::LAPO0 | BitFlags::LAPO1) == BitFlags::LAPO1 {
        PortraitLandscapeOrientation::LandscapeRight
    } else {
        PortraitLandscapeOrientation::LandscapeLeft
    }
}

/// The decoded PL_STATUS byte: the change flag, the z-tilt lookout flag, the
/// portrait/landscape orientation and the front/back orientation.
pub open spec fn spec_pl_status(b: u8) -> PortraitLandscapeStatus {
    PortraitLandscapeStatus {
        something_changed: b & BitFlags::NEWLP != 0,
        z_tilt_angle_lookout: b & BitFlags::LO != 0,
        portrait_landscape: spec_pl_orientation(b),
        front_back: if b & BitFlags::BAFRO != 0 {
            FrontBackOrientation::Back
        } else {
            FrontBackOrientation::Front
        },
    }
}

/// The seven independent interrupt-source flags of the INT_SOURCE register.
pub open spec fn spec_interrupt_status(b: u8) -> InterruptStatus {
    InterruptStatus {
        auto_sleep: b & BitFlags::SRC_ASLP != 0,
        fifo: b & BitFlags::SRC_FIFO != 0,
        transient: b & BitFlags::SRC_TRANS != 0,
        portrait_landscape: b & BitFlags::SRC_LNDPRT != 0,
        pulse: b & BitFlags::SRC_PULSE != 0,
        freefall_motion: b & BitFlags::SRC_FF_MT != 0,
        data_ready: b & BitFlags::SRC_DRDY != 0,
    }
}

/// Register bits unrelated to the portrait/landscape status never perturb the
/// decoded result: two PL_STATUS bytes that agree on the five status bits
/// decode to exactly the same status.
pub proof fn lemma_pl_status_masked(b1: u8, b2: u8)
    requires
        b1 & (BitFlags::NEWLP | BitFlags::LO | BitFlags::LAPO1 | BitFlags::LAPO0 | BitFlags::BAFRO)
            == b2 & (BitFlags::NEWLP | BitFlags::LO | BitFlags::LAPO1 | BitFlags::LAPO0
            | BitFlags::BAFRO),
    ensures
        spec_pl_status(b1) == spec_pl_status(b2),
{
    assert((b1 & 0x80u8 == b2 & 0x80u8) && (b1 & 0x40u8 == b2 & 0x40u8) && (b1 & (0x02u8 | 0x04u8)
        == b2 & (0x02u8 | 0x04u8)) && (b1 & 0x01u8 == b2 & 0x01u8)) by (bit_vector)
        requires
            b1 & (0x80u8 | 0x40u8 | 0x04u8 | 0x02u8 | 0x01u8) == b2 & (0x80u8 | 0x40u8 | 0x04u8
                | 0x02u8 | 0x01u8),
    ;
}

/// Decode a PL_STATUS byte.
pub fn get_pl_status(pl_status: u8) -> (r: PortraitLandscapeStatus)
    ensures
        r == spec_pl_status(pl_status),
{
    let pl = if pl_status & (BitFlags::LAPO0 | BitFlags::LAPO1) == 0 {
        PortraitLandscapeOrientation::PortraitUp
    } else if pl_status & (BitFlags::LAPO0 | BitFlags::LAPO1) == BitFlags::LAPO0 {
        PortraitLandscapeOrientation::PortraitDown
    } else if pl_status & (BitFlags::LAPO0 | BitFlags::LAPO1) == BitFlags::LAPO1 {
        PortraitLandscapeOrientation::LandscapeRight
    } else {
        PortraitLandscapeOrientation::LandscapeLeft
    };
    let fb = if pl_status & BitFlags::BAFRO != 0 {
        FrontBackOrientation::Back
    } else {
        FrontBackOrientation::Front
    };
    PortraitLandscapeStatus {
        something_changed: pl_status & BitFlags::NEWLP != 0,
        z_tilt_angle_lookout: pl_status & BitFlags::LO != 0,
        portrait_landscape: pl,
        front_back: fb,
    }
}

/// Decode an INT_SOURCE byte.
pub fn get_interrupt_status(int_src: u8) -> (r: InterruptStatus)
    ensures
        r == spec_interrupt_status(int_src),
{
    InterruptStatus {
        auto_sleep: int_src & BitFlags::SRC_ASLP != 0,
        fifo: int_src & BitFlags::SRC_FIFO != 0,
        transient: int_src & BitFlags::SRC_TRANS != 0,
        portrait_landscape: int_src & BitFlags::SRC_LNDPRT != 0,
        pulse: int_src & BitFlags::SRC_PULSE != 0,
        freefall_motion: int_src & BitFlags::SRC_FF_MT != 0,
        data_ready: int_src & BitFlags::SRC_DRDY != 0,
    }
}

impl<I2C: Transport, IC, MODE> Mma8x5x<I2C, IC, MODE> {
    /// Read the current system operating mode from SYSMOD.
    pub fn system_mode(&mut self) -> (res: Result<SystemMode, Error<I2C::BusError>>)
        ensures
            final(self)@ == old(self)@,
            match res {
                Ok(r) => exists|b: u8|
                    #![auto]
                    {
                        &&& final(self).log() == old(self).log().push(
                            BusOp::WriteRead {
                                addr: old(self)@.address,
                                sent: seq![Register::SYSMOD],
                                received: seq![b],
                            },
                        )
                        &&& r == spec_system_mode(b)
                    },
                Err(_) => final(self).log() == old(self).log(),
            },
    {
        match self.read_reg(Register::SYSMOD) {
            Ok(sysmod) => {
                let r = if sysmod & 0x03 == 0 {
                    SystemMode::Standby
                } else if sysmod & 0x03 == 1 {
                    SystemMode::Wake
                } else {
                    SystemMode::Sleep
                };
                proof {
                    assert(r == spec_system_mode(sysmod));
                }
                Ok(r)
            },
            Err(e) => Err(e),
        }
    }

    /// Read the current data status from the STATUS register.
    pub fn data_status(&mut self) -> (res: Result<DataStatus, Error<I2C::BusError>>)
        ensures
            final(self)@ == old(self)@,
            match res {
                Ok(r) => exists|b: u8|
                    #![auto]
                    {
                        &&& final(self).log() == old(self).log().push(
                            BusOp::WriteRead {
                                addr: old(self)@.address,
                                sent: seq![Register::STATUS],
                                received: seq![b],
                            },
                        )
                        &&& r == spec_data_status(b)
                    },
                Err(_) => final(self).log() == old(self).log(),
            },
    {
        match self.read_reg(Register::STATUS) {
            Ok(st) => {
                let r = DataStatus {
                    xyz_overwrite: st & BitFlags::XYZOW != 0,
                    x_overwrite: st & BitFlags::XOW != 0,
                    y_overwrite: st & BitFlags::YOW != 0,
                    z_overwrite: st & BitFlags::ZOW != 0,
                    xyz_new_data: st & BitFlags::XYZDR != 0,
                    x_new_data: st & BitFlags::XDR != 0,
                    y_new_data: st & BitFlags::YDR != 0,
                    z_new_data: st & BitFlags::ZDR != 0,
                };
                proof {
                    assert(r == spec_data_status(st));
                }
                Ok(r)
            },
            Err(e) => Err(e),
        }
    }

    /// Read the current portrait/landscape status from PL_STATUS.
    pub fn portrait_landscape_status(&mut self) -> (res: Result<
        PortraitLandscapeStatus,
        Error<I2C::BusError>,
    >)
        ensures
            final(self)@ == old(self)@,
            match res {
                Ok(r) => exists|b: u8|
                    #![auto]
                    {
                        &&& final(self).log() == old(self).log().push(
                            BusOp::WriteRead {
                                addr: old(self)@.address,
                                sent: seq![Register::PL_STATUS],
                                received: seq![b],
                            },
                        )
                        &&& r == spec_pl_status(b)
                    },
                Err(_) => final(self).log() == old(self).log(),
            },
    {
        match self.read_reg(Register::PL_STATUS) {
            Ok(st) => Ok(get_pl_status(st)),
            Err(e) => Err(e),
        }
    }

    /// Read the current interrupt status from INT_SOURCE.
    pub fn interrupt_status(&mut self) -> (res: Result<InterruptStatus, Error<I2C::BusError>>)
        ensures
            final(self)@ == old(self)@,
            match res {
                Ok(r) => exists|b: u8|
                    #![auto]
                    {
                        &&& final(self).log() == old(self).log().push(
                            BusOp::WriteRead {
                                addr: old(self)@.address,
                                sent: seq![Register::INT_SOURCE],
                                received: seq![b],
                            },
                        )
                        &&& r == spec_interrupt_status(b)
                    },
                Err(_) => final(self).log() == old(self).log(),
            },
    {
        match self.read_reg(Register::INT_SOURCE) {
            Ok(int_src) => Ok(get_interrupt_status(int_src)),
            Err(e) => Err(e),
        }
    }
}

} // verus!
