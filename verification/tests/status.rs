use mma8x5x::{
    get_interrupt_status, get_pl_status, BitFlags, FrontBackOrientation, InterruptStatus,
    PortraitLandscapeOrientation, PortraitLandscapeStatus,
};

#[test]
fn pl_status_default() {
    assert_eq!(PortraitLandscapeStatus::default(), get_pl_status(0));
}

#[test]
fn pl_status_unaffected_by_others() {
    assert_eq!(
        PortraitLandscapeStatus::default(),
        get_pl_status(!(BitFlags::NEWLP
            | BitFlags::LO
            | BitFlags::LAPO1
            | BitFlags::LAPO0
            | BitFlags::BAFRO))
    );
}

#[test]
fn pl_status_sth_changed() {
    assert_eq!(
        PortraitLandscapeStatus {
            something_changed: true,
            ..PortraitLandscapeStatus::default()
        },
        get_pl_status(BitFlags::NEWLP)
    );
}

#[test]
fn pl_status_z_tilt() {
    assert_eq!(
        PortraitLandscapeStatus {
            z_tilt_angle_lookout: true,
            ..PortraitLandscapeStatus::default()
        },
        get_pl_status(BitFlags::LO)
    );
}

#[test]
fn pl_status_back() {
    assert_eq!(
        PortraitLandscapeStatus {
            front_back: FrontBackOrientation::Back,
            ..PortraitLandscapeStatus::default()
        },
        get_pl_status(BitFlags::BAFRO)
    );
}

#[test]
fn pl_status_portrait_down() {
    assert_eq!(
        PortraitLandscapeStatus {
            portrait_landscape: PortraitLandscapeOrientation::PortraitDown,
            ..PortraitLandscapeStatus::default()
        },
        get_pl_status(BitFlags::LAPO0)
    );
}

#[test]
fn pl_status_landscape_right() {
    assert_eq!(
        PortraitLandscapeStatus {
            portrait_landscape: PortraitLandscapeOrientation::LandscapeRight,
            ..PortraitLandscapeStatus::default()
        },
        get_pl_status(BitFlags::LAPO1)
    );
}

#[test]
fn pl_status_landscape_left() {
    assert_eq!(
        PortraitLandscapeStatus {
            portrait_landscape: PortraitLandscapeOrientation::LandscapeLeft,
            ..PortraitLandscapeStatus::default()
        },
        get_pl_status(BitFlags::LAPO1 | BitFlags::LAPO0)
    );
}

#[test]
fn int_status_default() {
    assert_eq!(InterruptStatus::default(), get_interrupt_status(0));
}

#[test]
fn int_status_unaffected_by_others() {
    assert_eq!(
        InterruptStatus::default(),
        get_interrupt_status(
            !(BitFlags::SRC_ASLP
                | BitFlags::SRC_DRDY
                | BitFlags::SRC_FF_MT
                | BitFlags::SRC_FIFO
                | BitFlags::SRC_LNDPRT
                | BitFlags::SRC_PULSE
                | BitFlags::SRC_TRANS)
        )
    );
}

#[test]
fn int_status_all() {
    assert_eq!(
        InterruptStatus {
            auto_sleep: true,
            fifo: true,
            transient: true,
            portrait_landscape: true,
            pulse: true,
            freefall_motion: true,
            data_ready: true
        },
        get_interrupt_status(
            BitFlags::SRC_ASLP
                | BitFlags::SRC_DRDY
                | BitFlags::SRC_FF_MT
                | BitFlags::SRC_FIFO
                | BitFlags::SRC_LNDPRT
                | BitFlags::SRC_PULSE
                | BitFlags::SRC_TRANS
        )
    );
}

#[test]
fn int_status_freefall_motion_isolated() {
    assert_eq!(
        InterruptStatus {
            freefall_motion: true,
            ..InterruptStatus::default()
        },
        get_interrupt_status(BitFlags::SRC_FF_MT)
    );
}
