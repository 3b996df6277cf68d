use mma8x5x::{
    get_enabled_int_reg, get_int_routes_reg, get_wake_int_mask, BitFlags, EnabledInterrupts,
    InterruptPinRoutes, InterruptSourcePinRoute, WakeInterrupts,
};

#[test]
fn config_int_default() {
    assert_eq!(0, get_enabled_int_reg(EnabledInterrupts::default()));
}

#[test]
fn config_int_all() {
    assert_eq!(
        BitFlags::INT_EN_ASLP
            | BitFlags::INT_EN_DRDY
            | BitFlags::INT_EN_FF_MT
            | BitFlags::INT_EN_FIFO
            | BitFlags::INT_EN_LNDPRT
            | BitFlags::INT_EN_PULSE
            | BitFlags::INT_EN_TRANS,
        get_enabled_int_reg(EnabledInterrupts {
            auto_sleep: true,
            fifo: true,
            transient: true,
            portrait_landscape: true,
            pulse: true,
            freefall_motion: true,
            data_ready: true
        })
    );
}

#[test]
fn enabled_int_auto_sleep_isolated() {
    assert_eq!(
        BitFlags::INT_EN_ASLP,
        get_enabled_int_reg(EnabledInterrupts {
            auto_sleep: true,
            ..EnabledInterrupts::default()
        })
    );
}

#[test]
fn enabled_int_fifo_isolated() {
    assert_eq!(
        BitFlags::INT_EN_FIFO,
        get_enabled_int_reg(EnabledInterrupts {
            fifo: true,
            ..EnabledInterrupts::default()
        })
    );
}

#[test]
fn enabled_int_transient_isolated() {
    assert_eq!(
        BitFlags::INT_EN_TRANS,
        get_enabled_int_reg(EnabledInterrupts {
            transient: true,
            ..EnabledInterrupts::default()
        })
    );
}

#[test]
fn enabled_int_portrait_landscape_isolated() {
    assert_eq!(
        BitFlags::INT_EN_LNDPRT,
        get_enabled_int_reg(EnabledInterrupts {
            portrait_landscape: true,
            ..EnabledInterrupts::default()
        })
    );
}

#[test]
fn enabled_int_pulse_isolated() {
    assert_eq!(
        BitFlags::INT_EN_PULSE,
        get_enabled_int_reg(EnabledInterrupts {
            pulse: true,
            ..EnabledInterrupts::default()
        })
    );
}

#[test]
fn enabled_int_freefall_motion_isolated() {
    assert_eq!(
        BitFlags::INT_EN_FF_MT,
        get_enabled_int_reg(EnabledInterrupts {
            freefall_motion: true,
            ..EnabledInterrupts::default()
        })
    );
}

#[test]
fn enabled_int_data_ready_isolated() {
    assert_eq!(
        BitFlags::INT_EN_DRDY,
        get_enabled_int_reg(EnabledInterrupts {
            data_ready: true,
            ..EnabledInterrupts::default()
        })
    );
}

#[test]
fn default() {
    assert_eq!(0, get_int_routes_reg(InterruptPinRoutes::default()));
}

#[test]
fn all() {
    assert_eq!(
        BitFlags::INT_CFG_ASLP
            | BitFlags::INT_CFG_DRDY
            | BitFlags::INT_CFG_FF_MT
            | BitFlags::INT_CFG_FIFO
            | BitFlags::INT_CFG_LNDPRT
            | BitFlags::INT_CFG_PULSE
            | BitFlags::INT_CFG_TRANS,
        get_int_routes_reg(InterruptPinRoutes {
            auto_sleep: InterruptSourcePinRoute::Int1,
            fifo: InterruptSourcePinRoute::Int1,
            transient: InterruptSourcePinRoute::Int1,
            portrait_landscape: InterruptSourcePinRoute::Int1,
            pulse: InterruptSourcePinRoute::Int1,
            freefall_motion: InterruptSourcePinRoute::Int1,
            data_ready: InterruptSourcePinRoute::Int1
        })
    );
}

#[test]
fn int_route_transient_isolated() {
    assert_eq!(
        BitFlags::INT_CFG_TRANS,
        get_int_routes_reg(InterruptPinRoutes {
            transient: InterruptSourcePinRoute::Int1,
            ..InterruptPinRoutes::default()
        })
    );
}

#[test]
fn int_route_data_ready_isolated() {
    assert_eq!(
        BitFlags::INT_CFG_DRDY,
        get_int_routes_reg(InterruptPinRoutes {
            data_ready: InterruptSourcePinRoute::Int1,
            ..InterruptPinRoutes::default()
        })
    );
}

#[test]
fn wake_int_default() {
    assert_eq!(0, get_wake_int_mask(WakeInterrupts::default()));
}

#[test]
fn wake_int_all() {
    assert_eq!(
        BitFlags::WAKE_FF_MT | BitFlags::WAKE_LNDPRT | BitFlags::WAKE_PULSE | BitFlags::WAKE_TRANS,
        get_wake_int_mask(WakeInterrupts {
            transient: true,
            portrait_landscape: true,
            pulse: true,
            freefall_motion: true,
        })
    );
}

#[test]
fn wake_int_transient_isolated() {
    assert_eq!(
        BitFlags::WAKE_TRANS,
        get_wake_int_mask(WakeInterrupts {
            transient: true,
            ..WakeInterrupts::default()
        })
    );
}

#[test]
fn wake_int_freefall_motion_isolated() {
    assert_eq!(
        BitFlags::WAKE_FF_MT,
        get_wake_int_mask(WakeInterrupts {
            freefall_motion: true,
            ..WakeInterrupts::default()
        })
    );
}
