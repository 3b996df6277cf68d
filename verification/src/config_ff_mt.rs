//! Freefall/motion detection: enabling detection writes the event
//! configuration, then the threshold, then the debounce count register; the
//! event source register decodes into per-axis activity.

use vstd::prelude::*;
use crate::mode::{Active, Standby};
use crate::register_access::{BitFlags, Register};
use crate::transport::{BusOp, Transport};
use crate::types::{
    Error, FreefallMotionAxisActivity, FreefallMotionConfiguration, FreefallMotionDebounceMode,
    FreefallMotionDetectionMode, FreefallMotionSource,
};
use crate::Mma8x5x;

verus! {

/// The FF_MT_CFG byte for a detection configuration: the detection-mode bit,
/// the event-latch bit and one enable bit per axis.
pub open spec fn spec_ff_mt_cfg(conf: FreefallMotionConfiguration) -> u8 {
    (match conf.detection_mode {
        FreefallMotionDetectionMode::Freefall => 0,
        FreefallMotionDetectionMode::Motion => BitFlags::OAE,
    }) | (if conf.event_latch {
        BitFlags::ELE
    } else {
        0
    }) | (if conf.x_axis {
        BitFlags::XEFE
    } else {
        0
    }) | (if conf.y_axis {
        BitFlags::YEFE
    } else {
        0
    }) | (if conf.z_axis {
        BitFlags::ZEFE
    } else {
        0
    })
}

/// The 7-bit threshold field: the threshold in 1/1000 g divided by 63 and
/// clamped to 127.
pub open spec fn spec_ff_mt_threshold(threshold: u16) -> u8 {
    if threshold / 63 > 127 {
        127
    } else {
        (threshold / 63) as u8
    }
}

/// The FF_MT_THS byte: the debounce-mode bit alongside the 7-bit threshold
/// field.
pub open spec fn spec_ff_mt_ths(conf: FreefallMotionConfiguration) -> u8 {
    (match conf.debounce_mode {
        FreefallMotionDebounceMode::IncrementOrDecrement => 0,
        FreefallMotionDebounceMode::IncrementOrClear => BitFlags::DBCNTM,
    }) | spec_ff_mt_threshold(conf.threshold)
}

/// The activity one axis reports: nothing while the event flag is clear,
/// positive movement when the event flag is set and the polarity flag clear,
/// negative movement when both are set.
pub open spec fn spec_axis_activity(event: bool, polarity: bool) -> FreefallMotionAxisActivity {
    if !event {
        FreefallMotionAxisActivity::Inactive
    } else if polarity {
        FreefallMotionAxisActivity::Negative
    } else {
        FreefallMotionAxisActivity::Positive
    }
}

/// The decoded FF_MT_SRC byte: nothing at all unless the event-active flag is
/// set, otherwise the per-axis activities.
pub open spec fn spec_ff_mt_source(src: u8) -> Option<FreefallMotionSource> {
    if src & BitFlags::EA != 0 {
        Some(
            FreefallMotionSource {
                x_axis: spec_axis_activity(src & BitFlags::XHE != 0, src & BitFlags::XHP != 0),
                y_axis: spec_axis_activity(src & BitFlags::YHE != 0, src & BitFlags::YHP != 0),
                z_axis: spec_axis_activity(src & BitFlags::ZHE != 0, src & BitFlags::ZHP != 0),
            },
        )
    } else {
        None
    }
}

fn axis_activity(event: bool, polarity: bool) -> (r: FreefallMotionAxisActivity)
    ensures
        r == spec_axis_activity(event, polarity),
{
    if !event {
        FreefallMotionAxisActivity::Inactive
    } else if polarity {
        FreefallMotionAxisActivity::Negative
    } else {
        FreefallMotionAxisActivity::Positive
    }
}

impl<I2C: Transport, IC> Mma8x5x<I2C, IC, Standby> {
    /// Enable freefall or motion detection: three writes, the event
    /// configuration to FF_MT_CFG, then the debounce-mode/threshold byte to
    /// FF_MT_THS, then the same byte to the aliased FF_MT_COUNT register.
    /// Nothing is cached; a failure leaves the registers already written.
    pub fn enable_freefall_motion_detection(&mut self, conf: FreefallMotionConfiguration) -> (res:
        Result<(), Error<I2C::BusError>>)
        ensures
            final(self)@ == old(self)@,
            match res {
                Ok(()) => final(self).log() == old(self).log() + seq![
                    BusOp::Write {
                        addr: old(self)@.address,
                        data: seq![Register::FF_MT_CFG, spec_ff_mt_cfg(conf)],
                    },
                    BusOp::Write {
                        addr: old(self)@.address,
                        data: seq![Register::FF_MT_THS, spec_ff_mt_ths(conf)],
                    },
                    BusOp::Write {
                        addr: old(self)@.address,
                        data: seq![Register::FF_MT_COUNT, spec_ff_mt_ths(conf)],
                    },
                ],
                Err(_) => {
                    ||| final(self).log() == old(self).log()
                    ||| final(self).log() == old(self).log().push(
                        BusOp::Write {
                            addr: old(self)@.address,
                            data: seq![Register::FF_MT_CFG, spec_ff_mt_cfg(conf)],
                        },
                    )
                    ||| final(self).log() == old(self).log().push(
                        BusOp::Write {
                            addr: old(self)@.address,
                            data: seq![Register::FF_MT_CFG, spec_ff_mt_cfg(conf)],
                        },
                    ).push(
                        BusOp::Write {
                            addr: old(self)@.address,
                            data: seq![Register::FF_MT_THS, spec_ff_mt_ths(conf)],
                        },
                    )
                },
            },
    {
        let value = (match conf.detection_mode {
            FreefallMotionDetectionMode::Freefall => 0,
            FreefallMotionDetectionMode::Motion => BitFlags::OAE,
        }) | (if conf.event_latch {
            BitFlags::ELE
        } else {
            0
        }) | (if conf.x_axis {
            BitFlags::XEFE
        } else {
            0
        }) | (if conf.y_axis {
            BitFlags::YEFE
        } else {
            0
        }) | (if conf.z_axis {
            BitFlags::ZEFE
        } else {
            0
        });
        match self.write_reg(Register::FF_MT_CFG, value) {
            Ok(()) => {},
            Err(e) => {
                return Err(e);
            },
        }
        let mode_bit = match conf.debounce_mode {
            FreefallMotionDebounceMode::IncrementOrDecrement => 0,
            FreefallMotionDebounceMode::IncrementOrClear => BitFlags::DBCNTM,
        };
        let divided = conf.threshold / 63;
        let thres: u8 = if divided > 127 {
            127
        } else {
            divided as u8
        };
        let value = mode_bit | thres;
        match self.write_reg(Register::FF_MT_THS, value) {
            Ok(()) => {},
            Err(e) => {
                return Err(e);
            },
        }
        match self.write_reg(Register::FF_MT_COUNT, value) {
            Ok(()) => {
                proof {
                    assert(final(self).log() =~= old(self).log() + seq![
                        BusOp::Write {
                            addr: old(self)@.address,
                            data: seq![Register::FF_MT_CFG, spec_ff_mt_cfg(conf)],
                        },
                        BusOp::Write {
                            addr: old(self)@.address,
                            data: seq![Register::FF_MT_THS, spec_ff_mt_ths(conf)],
                        },
                        BusOp::Write {
                            addr: old(self)@.address,
                            data: seq![Register::FF_MT_COUNT, spec_ff_mt_ths(conf)],
                        },
                    ]);
                }
                Ok(())
            },
            Err(e) => Err(e),
        }
    }
}

impl<I2C: Transport, IC> Mma8x5x<I2C, IC, Active> {
    /// Get the source of the freefall/motion event: one FF_MT_SRC read,
    /// decoded per axis; no event is reported unless the event-active flag is
    /// set.
    pub fn freefall_motion_source(&mut self) -> (res: Result<
        Option<FreefallMotionSource>,
        Error<I2C::BusError>,
    >)
        ensures
            final(self)@ == old(self)@,
            match res {
                Ok(r) => exists|b: u8|
                    #![auto]
                    {
                        &&& final(self).log() == old(self).log().push(
                            BusOp::WriteRead {
                                addr: old(self)@.address,
                                sent: seq![Register::FF_MT_SRC],
                                received: seq![b],
                            },
                        )
                        &&& r == spec_ff_mt_source(b)
                    },
                Err(_) => final(self).log() == old(self).log(),
            },
    {
        match self.read_reg(Register::FF_MT_SRC) {
            Ok(src) => {
                let r = if (src & BitFlags::EA) != 0 {
                    Some(
                        FreefallMotionSource {
                            x_axis: axis_activity(
                                (src & BitFlags::XHE) != 0,
                                (src & BitFlags::XHP) != 0,
                            ),
                            y_axis: axis_activity(
                                (src & BitFlags::YHE) != 0,
                                (src & BitFlags::YHP) != 0,
                            ),
                            z_axis: axis_activity(
                                (src & BitFlags::ZHE) != 0,
                                (src & BitFlags::ZHP) != 0,
                            ),
                        },
                    )
                } else {
                    None
                };
                proof {
                    assert(r == spec_ff_mt_source(src));
                }
                Ok(r)
            },
            Err(e) => Err(e),
        }
    }
}

} // verus!
