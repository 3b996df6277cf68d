//! Interrupt configuration: pin polarity and drive, the interrupt-enable
//! register, the pin-route register and the wake-from-sleep sources, together
//! with the proofs that each flag maps to exactly its own bit.

use vstd::prelude::*;
use crate::mode::Standby;
use crate::register_access::{BitFlags, Register};
use crate::transport::{BusOp, Transport};
use crate::types::{
    EnabledInterrupts, Error, InterruptPinConfiguration, InterruptPinPolarity, InterruptPinRoutes,
    InterruptSourcePinRoute, WakeInterrupts,
};
use crate::{Config, DevState, Mma8x5x};

verus! {

/// The CTRL_REG4 byte enabling exactly the chosen interrupt sources.
pub open spec fn spec_enabled_int_reg(e: EnabledInterrupts) -> u8 {
    (if e.auto_sleep {
        BitFlags::INT_EN_ASLP
    } else {
        0
    }) | (if e.fifo {
        BitFlags::INT_EN_FIFO
    } else {
        0
    }) | (if e.transient {
        BitFlags::INT_EN_TRANS
    } else {
        0
    }) | (if e.portrait_landscape {
        BitFlags::INT_EN_LNDPRT
    } else {
        0
    }) | (if e.pulse {
        BitFlags::INT_EN_PULSE
    } else {
        0
    }) | (if e.freefall_motion {
        BitFlags::INT_EN_FF_MT
    } else {
        0
    }) | (if e.data_ready {
        BitFlags::INT_EN_DRDY
    } else {
        0
    })
}

/// The bit a single source contributes to the pin-route register: the
/// source's flag when routed to INT1, nothing when routed to INT2.
pub open spec fn spec_route_bit(route: InterruptSourcePinRoute, flag: u8) -> u8 {
    match route {
        InterruptSourcePinRoute::Int1 => flag,
        InterruptSourcePinRoute::Int2 => 0,
    }
}

/// The CTRL_REG5 byte routing exactly the chosen sources to pin INT1.
pub open spec fn spec_int_routes_reg(r: InterruptPinRoutes) -> u8 {
    spec_route_bit(r.auto_sleep, BitFlags::INT_CFG_ASLP) | spec_route_bit(
        r.fifo,
        BitFlags::INT_CFG_FIFO,
    ) | spec_route_bit(r.transient, BitFlags::INT_CFG_TRANS) | spec_route_bit(
        r.portrait_landscape,
        BitFlags::INT_CFG_LNDPRT,
    ) | spec_route_bit(r.pulse, BitFlags::INT_CFG_PULSE) | spec_route_bit(
        r.freefall_motion,
        BitFlags::INT_CFG_FF_MT,
    ) | spec_route_bit(r.data_ready, BitFlags::INT_CFG_DRDY)
}

/// The wake-source field of CTRL_REG3 for the chosen wake interrupts.
pub open spec fn spec_wake_int_mask(w: WakeInterrupts) -> u8 {
    (if w.transient {
        BitFlags::WAKE_TRANS
    } else {
        0
    }) | (if w.portrait_landscape {
        BitFlags::WAKE_LNDPRT
    } else {
        0
    }) | (if w.pulse {
        BitFlags::WAKE_PULSE
    } else {
        0
    }) | (if w.freefall_motion {
        BitFlags::WAKE_FF_MT
    } else {
        0
    })
}

/// CTRL_REG3 with the wake-source field replaced.
pub open spec fn ctrl3_with_wake_ints(bits: u8, w: WakeInterrupts) -> u8 {
    (bits & !(BitFlags::WAKE_FF_MT | BitFlags::WAKE_LNDPRT | BitFlags::WAKE_PULSE
        | BitFlags::WAKE_TRANS)) | spec_wake_int_mask(w)
}

/// An OR of seven values, each either zero or its own distinct bit, holds
/// each bit exactly when the value contributing it is set, and never the one
/// bit none of them covers.
proof fn lemma_or_fields_isolated(a: u8, f: u8, t: u8, p: u8, u: u8, m: u8, d: u8)
    by (bit_vector)
    requires
        a == 0 || a == 0x80,
        f == 0 || f == 0x40,
        t == 0 || t == 0x20,
        p == 0 || p == 0x10,
        u == 0 || u == 0x08,
        m == 0 || m == 0x04,
        d == 0 || d == 0x01,
    ensures
        (a | f | t | p | u | m | d) & 0x80 == a,
        (a | f | t | p | u | m | d) & 0x40 == f,
        (a | f | t | p | u | m | d) & 0x20 == t,
        (a | f | t | p | u | m | d) & 0x10 == p,
        (a | f | t | p | u | m | d) & 0x08 == u,
        (a | f | t | p | u | m | d) & 0x04 == m,
        (a | f | t | p | u | m | d) & 0x01 == d,
        (a | f | t | p | u | m | d) & 0x02 == 0,
        a | f | t | p | u | m | d == a + f + t + p + u + m + d,
{
}

/// An OR of the four wake-source values, each either zero or its own bit,
/// holds each bit exactly when the interrupt contributing it is set, and
/// no bit outside the wake-source field.
proof fn lemma_or_wake_isolated(t: u8, l: u8, p: u8, f: u8)
    by (bit_vector)
    requires
        t == 0 || t == 0x40,
        l == 0 || l == 0x20,
        p == 0 || p == 0x10,
        f == 0 || f == 0x08,
    ensures
        (t | l | p | f) & 0x40 == t,
        (t | l | p | f) & 0x20 == l,
        (t | l | p | f) & 0x10 == p,
        (t | l | p | f) & 0x08 == f,
        (t | l | p | f) & 0x87 == 0,
        t | l | p | f == t + l + p + f,
{
}

/// Each interrupt-enable flag maps to exactly its own bit of the emitted
/// CTRL_REG4 byte, no flag perturbs another flag's bit, the one register bit
/// outside the field is always clear, and the byte is the sum of the set
/// bits.
pub proof fn lemma_enabled_int_reg_isolated(e: EnabledInterrupts)
    ensures
        spec_enabled_int_reg(e) & BitFlags::INT_EN_ASLP == (if e.auto_sleep {
            BitFlags::INT_EN_ASLP
        } else {
            0
        }),
        spec_enabled_int_reg(e) & BitFlags::INT_EN_FIFO == (if e.fifo {
            BitFlags::INT_EN_FIFO
        } else {
            0
        }),
        spec_enabled_int_reg(e) & BitFlags::INT_EN_TRANS == (if e.transient {
            BitFlags::INT_EN_TRANS
        } else {
            0
        }),
        spec_enabled_int_reg(e) & BitFlags::INT_EN_LNDPRT == (if e.portrait_landscape {
            BitFlags::INT_EN_LNDPRT
        } else {
            0
        }),
        spec_enabled_int_reg(e) & BitFlags::INT_EN_PULSE == (if e.pulse {
            BitFlags::INT_EN_PULSE
        } else {
            0
        }),
        spec_enabled_int_reg(e) & BitFlags::INT_EN_FF_MT == (if e.freefall_motion {
            BitFlags::INT_EN_FF_MT
        } else {
            0
        }),
        spec_enabled_int_reg(e) & BitFlags::INT_EN_DRDY == (if e.data_ready {
            BitFlags::INT_EN_DRDY
        } else {
            0
        }),
        spec_enabled_int_reg(e) & 0x02 == 0,
        spec_enabled_int_reg(e) == (if e.auto_sleep {
            BitFlags::INT_EN_ASLP as int
        } else {
            0
        }) + (if e.fifo {
            BitFlags::INT_EN_FIFO as int
        } else {
            0
        }) + (if e.transient {
            BitFlags::INT_EN_TRANS as int
        } else {
            0
        }) + (if e.portrait_landscape {
            BitFlags::INT_EN_LNDPRT as int
        } else {
            0
        }) + (if e.pulse {
            BitFlags::INT_EN_PULSE as int
        } else {
            0
        }) + (if e.freefall_motion {
            BitFlags::INT_EN_FF_MT as int
        } else {
            0
        }) + (if e.data_ready {
            BitFlags::INT_EN_DRDY as int
        } else {
            0
        }),
{
    lemma_or_fields_isolated(
        if e.auto_sleep {
            BitFlags::INT_EN_ASLP
        } else {
            0
        },
        if e.fifo {
            BitFlags::INT_EN_FIFO
        } else {
            0
        },
        if e.transient {
            BitFlags::INT_EN_TRANS
        } else {
            0
        },
        if e.portrait_landscape {
            BitFlags::INT_EN_LNDPRT
        } else {
            0
        },
        if e.pulse {
            BitFlags::INT_EN_PULSE
        } else {
            0
        },
        if e.freefall_motion {
            BitFlags::INT_EN_FF_MT
        } else {
            0
        },
        if e.data_ready {
            BitFlags::INT_EN_DRDY
        } else {
            0
        },
    );
}

/// Each pin route maps to exactly its own bit of the emitted CTRL_REG5 byte:
/// a source routed to INT1 contributes its bit, a source routed to INT2
/// contributes nothing, no route perturbs another route's bit, and the one
/// register bit outside the field is always clear.
pub proof fn lemma_int_routes_reg_isolated(r: InterruptPinRoutes)
    ensures
        spec_int_routes_reg(r) & BitFlags::INT_CFG_ASLP == spec_route_bit(
            r.auto_sleep,
            BitFlags::INT_CFG_ASLP,
        ),
        spec_int_routes_reg(r) & BitFlags::INT_CFG_FIFO == spec_route_bit(
            r.fifo,
            BitFlags::INT_CFG_FIFO,
        ),
        spec_int_routes_reg(r) & BitFlags::INT_CFG_TRANS == spec_route_bit(
            r.transient,
            BitFlags::INT_CFG_TRANS,
        ),
        spec_int_routes_reg(r) & BitFlags::INT_CFG_LNDPRT == spec_route_bit(
            r.portrait_landscape,
            BitFlags::INT_CFG_LNDPRT,
        ),
        spec_int_routes_reg(r) & BitFlags::INT_CFG_PULSE == spec_route_bit(
            r.pulse,
            BitFlags::INT_CFG_PULSE,
        ),
        spec_int_routes_reg(r) & BitFlags::INT_CFG_FF_MT == spec_route_bit(
            r.freefall_motion,
            BitFlags::INT_CFG_FF_MT,
        ),
        spec_int_routes_reg(r) & BitFlags::INT_CFG_DRDY == spec_route_bit(
            r.data_ready,
            BitFlags::INT_CFG_DRDY,
        ),
        spec_int_routes_reg(r) & 0x02 == 0,
        spec_int_routes_reg(r) == spec_route_bit(r.auto_sleep, BitFlags::INT_CFG_ASLP)
            + spec_route_bit(r.fifo, BitFlags::INT_CFG_FIFO) + spec_route_bit(
            r.transient,
            BitFlags::INT_CFG_TRANS,
        ) + spec_route_bit(r.portrait_landscape, BitFlags::INT_CFG_LNDPRT) + spec_route_bit(
            r.pulse,
            BitFlags::INT_CFG_PULSE,
        ) + spec_route_bit(r.freefall_motion, BitFlags::INT_CFG_FF_MT) + spec_route_bit(
            r.data_ready,
            BitFlags::INT_CFG_DRDY,
        ),
{
    lemma_or_fields_isolated(
        spec_route_bit(r.auto_sleep, BitFlags::INT_CFG_ASLP),
        spec_route_bit(r.fifo, BitFlags::INT_CFG_FIFO),
        spec_route_bit(r.transient, BitFlags::INT_CFG_TRANS),
        spec_route_bit(r.portrait_landscape, BitFlags::INT_CFG_LNDPRT),
        spec_route_bit(r.pulse, BitFlags::INT_CFG_PULSE),
        spec_route_bit(r.freefall_motion, BitFlags::INT_CFG_FF_MT),
        spec_route_bit(r.data_ready, BitFlags::INT_CFG_DRDY),
    );
}

/// Each wake interrupt maps to exactly its own bit of the wake-source field,
/// no flag perturbs another flag's bit, and every bit outside the field is
/// clear.
pub proof fn lemma_wake_int_mask_isolated(w: WakeInterrupts)
    ensures
        spec_wake_int_mask(w) & BitFlags::WAKE_TRANS == (if w.transient {
            BitFlags::WAKE_TRANS
        } else {
            0
        }),
        spec_wake_int_mask(w) & BitFlags::WAKE_LNDPRT == (if w.portrait_landscape {
            BitFlags::WAKE_LNDPRT
        } else {
            0
        }),
        spec_wake_int_mask(w) & BitFlags::WAKE_PULSE == (if w.pulse {
            BitFlags::WAKE_PULSE
        } else {
            0
        }),
        spec_wake_int_mask(w) & BitFlags::WAKE_FF_MT == (if w.freefall_motion {
            BitFlags::WAKE_FF_MT
        } else {
            0
        }),
        spec_wake_int_mask(w) & 0x87 == 0,
        spec_wake_int_mask(w) == (if w.transient {
            BitFlags::WAKE_TRANS as int
        } else {
            0
        }) + (if w.portrait_landscape {
            BitFlags::WAKE_LNDPRT as int
        } else {
            0
        }) + (if w.pulse {
            BitFlags::WAKE_PULSE as int
        } else {
            0
        }) + (if w.freefall_motion {
            BitFlags::WAKE_FF_MT as int
        } else {
            0
        }),
{
    lemma_or_wake_isolated(
        if w.transient {
            BitFlags::WAKE_TRANS
        } else {
            0
        },
        if w.portrait_landscape {
            BitFlags::WAKE_LNDPRT
        } else {
            0
        },
        if w.pulse {
            BitFlags::WAKE_PULSE
        } else {
            0
        },
        if w.freefall_motion {
            BitFlags::WAKE_FF_MT
        } else {
            0
        },
    );
}

/// The CTRL_REG4 byte enabling exactly the chosen interrupt sources.
pub fn get_enabled_int_reg(en_int: EnabledInterrupts) -> (r: u8)
    ensures
        r == spec_enabled_int_reg(en_int),
{
    (if en_int.auto_sleep {
        BitFlags::INT_EN_ASLP
    } else {
        0
    }) | (if en_int.fifo {
        BitFlags::INT_EN_FIFO
    } else {
        0
    }) | (if en_int.transient {
        BitFlags::INT_EN_TRANS
    } else {
        0
    }) | (if en_int.portrait_landscape {
        BitFlags::INT_EN_LNDPRT
    } else {
        0
    }) | (if en_int.pulse {
        BitFlags::INT_EN_PULSE
    } else {
        0
    }) | (if en_int.freefall_motion {
        BitFlags::INT_EN_FF_MT
    } else {
        0
    }) | (if en_int.data_ready {
        BitFlags::INT_EN_DRDY
    } else {
        0
    })
}

/// The bit a single source contributes to the pin-route register.
pub fn get_int_source_pin_route_reg(route: InterruptSourcePinRoute, flag: u8) -> (r: u8)
    ensures
        r == spec_route_bit(route, flag),
{
    match route {
        InterruptSourcePinRoute::Int2 => 0,
        InterruptSourcePinRoute::Int1 => flag,
    }
}

/// The CTRL_REG5 byte routing exactly the chosen sources to pin INT1.
pub fn get_int_routes_reg(routes: InterruptPinRoutes) -> (r: u8)
    ensures
        r == spec_int_routes_reg(routes),
{
    get_int_source_pin_route_reg(routes.auto_sleep, BitFlags::INT_CFG_ASLP)
        | get_int_source_pin_route_reg(routes.fifo, BitFlags::INT_CFG_FIFO)
        | get_int_source_pin_route_reg(routes.transient, BitFlags::INT_CFG_TRANS)
        | get_int_source_pin_route_reg(routes.portrait_landscape, BitFlags::INT_CFG_LNDPRT)
        | get_int_source_pin_route_reg(routes.pulse, BitFlags::INT_CFG_PULSE)
        | get_int_source_pin_route_reg(routes.freefall_motion, BitFlags::INT_CFG_FF_MT)
        | get_int_source_pin_route_reg(routes.data_ready, BitFlags::INT_CFG_DRDY)
}

/// The wake-source field of CTRL_REG3 for the chosen wake interrupts.
pub fn get_wake_int_mask(wake_ints: WakeInterrupts) -> (r: u8)
    ensures
        r == spec_wake_int_mask(wake_ints),
{
    (if wake_ints.transient {
        BitFlags::WAKE_TRANS
    } else {
        0
    }) | (if wake_ints.portrait_landscape {
        BitFlags::WAKE_LNDPRT
    } else {
        0
    }) | (if wake_ints.pulse {
        BitFlags::WAKE_PULSE
    } else {
        0
    }) | (if wake_ints.freefall_motion {
        BitFlags::WAKE_FF_MT
    } else {
        0
    })
}

impl<I2C: Transport, IC> Mma8x5x<I2C, IC, Standby> {
    /// Set the interrupt pin polarity.
    pub fn set_interrupt_pin_polarity(&mut self, polarity: InterruptPinPolarity) -> (res: Result<
        (),
        Error<I2C::BusError>,
    >)
        ensures
            match res {
                Ok(()) => {
                    &&& final(self)@ == (DevState {
                        ctrl_reg3: match polarity {
                            InterruptPinPolarity::ActiveLow => old(self)@.ctrl_reg3
                                & !BitFlags::IPOL,
                            InterruptPinPolarity::ActiveHigh => old(self)@.ctrl_reg3
                                | BitFlags::IPOL,
                        },
                        ..old(self)@
                    })
                    &&& final(self).log() == old(self).log().push(
                        BusOp::Write {
                            addr: old(self)@.address,
                            data: seq![Register::CTRL_REG3, final(self)@.ctrl_reg3],
                        },
                    )
                },
                Err(_) => {
                    &&& final(self)@ == old(self)@
                    &&& final(self).log() == old(self).log()
                },
            },
    {
        let config = match polarity {
            InterruptPinPolarity::ActiveLow => self.ctrl_reg3.with_low(BitFlags::IPOL),
            InterruptPinPolarity::ActiveHigh => self.ctrl_reg3.with_high(BitFlags::IPOL),
        };
        match self.write_reg(Register::CTRL_REG3, config.bits) {
            Ok(()) => {
                self.ctrl_reg3 = config;
                Ok(())
            },
            Err(e) => Err(e),
        }
    }

    /// Set the interrupt pin drive configuration.
    pub fn set_interrupt_pin_configuration(
        &mut self,
        configuration: InterruptPinConfiguration,
    ) -> (res: Result<(), Error<I2C::BusError>>)
        ensures
            match res {
                Ok(()) => {
                    &&& final(self)@ == (DevState {
                        ctrl_reg3: match configuration {
                            InterruptPinConfiguration::PushPull => old(self)@.ctrl_reg3
                                & !BitFlags::PP_OD,
                            InterruptPinConfiguration::OpenDrain => old(self)@.ctrl_reg3
                                | BitFlags::PP_OD,
                        },
                        ..old(self)@
                    })
                    &&& final(self).log() == old(self).log().push(
                        BusOp::Write {
                            addr: old(self)@.address,
                            data: seq![Register::CTRL_REG3, final(self)@.ctrl_reg3],
                        },
                    )
                },
                Err(_) => {
                    &&& final(self)@ == old(self)@
                    &&& final(self).log() == old(self).log()
                },
            },
    {
        let config = match configuration {
            InterruptPinConfiguration::PushPull => self.ctrl_reg3.with_low(BitFlags::PP_OD),
            InterruptPinConfiguration::OpenDrain => self.ctrl_reg3.with_high(BitFlags::PP_OD),
        };
        match self.write_reg(Register::CTRL_REG3, config.bits) {
            Ok(()) => {
                self.ctrl_reg3 = config;
                Ok(())
            },
            Err(e) => Err(e),
        }
    }

    /// Set the enabled interrupt sources: one write of the CTRL_REG4 byte
    /// (not cached). Sources the device does not offer are ignored by it.
    pub fn set_enabled_interrupts(&mut self, enabled: EnabledInterrupts) -> (res: Result<
        (),
        Error<I2C::BusError>,
    >)
        ensures
            final(self)@ == old(self)@,
            match res {
                Ok(()) => final(self).log() == old(self).log().push(
                    BusOp::Write {
                        addr: old(self)@.address,
                        data: seq![Register::CTRL_REG4, spec_enabled_int_reg(enabled)],
                    },
                ),
                Err(_) => final(self).log() == old(self).log(),
            },
    {
        let value = get_enabled_int_reg(enabled);
        self.write_reg(Register::CTRL_REG4, value)
    }

    /// Set the interrupt source pin routes: one write of the CTRL_REG5 byte
    /// (not cached).
    pub fn set_interrupt_pin_routes(&mut self, routes: InterruptPinRoutes) -> (res: Result<
        (),
        Error<I2C::BusError>,
    >)
        ensures
            final(self)@ == old(self)@,
            match res {
                Ok(()) => final(self).log() == old(self).log().push(
                    BusOp::Write {
                        addr: old(self)@.address,
                        data: seq![Register::CTRL_REG5, spec_int_routes_reg(routes)],
                    },
                ),
                Err(_) => final(self).log() == old(self).log(),
            },
    {
        let value = get_int_routes_reg(routes);
        self.write_reg(Register::CTRL_REG5, value)
    }

    /// Set the interrupts that wake the device from sleep: the wake-source
    /// field of CTRL_REG3 is replaced and the byte written out.
    pub fn set_wake_interrupts(&mut self, interrupts: WakeInterrupts) -> (res: Result<
        (),
        Error<I2C::BusError>,
    >)
        ensures
            match res {
                Ok(()) => {
                    &&& final(self)@ == (DevState {
                        ctrl_reg3: ctrl3_with_wake_ints(old(self)@.ctrl_reg3, interrupts),
                        ..old(self)@
                    })
                    &&& final(self).log() == old(self).log().push(
                        BusOp::Write {
                            addr: old(self)@.address,
                            data: seq![
                                Register::CTRL_REG3,
                                ctrl3_with_wake_ints(old(self)@.ctrl_reg3, interrupts),
                            ],
                        },
                    )
                },
                Err(_) => {
                    &&& final(self)@ == old(self)@
                    &&& final(self).log() == old(self).log()
                },
            },
    {
        let bits = self.ctrl_reg3.bits & !(BitFlags::WAKE_FF_MT | BitFlags::WAKE_LNDPRT
            | BitFlags::WAKE_PULSE | BitFlags::WAKE_TRANS);
        let bits = bits | get_wake_int_mask(interrupts);
        match self.write_reg(Register::CTRL_REG3, bits) {
            Ok(()) => {
                self.ctrl_reg3 = Config { bits };
                Ok(())
            },
            Err(e) => Err(e),
        }
    }
}

} // verus!
