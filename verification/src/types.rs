//! Public data types of the driver: configuration values, decoded status
//! structures, and the error types returned by fallible operations.

use vstd::prelude::*;

verus! {

/// Base slave address of the devices with a selectable address pin.
pub const MMA845X_BASE_ADDR: u8 = 0x1C;

/// All possible errors in this crate.
#[derive(Debug)]
pub enum Error<E> {
    /// Two-wire bus error, wrapping the transport's own error value.
    I2C(E),
}

/// Error of a mode-changing operation, returning the unchanged device so the
/// caller keeps ownership of it.
#[derive(Debug)]
pub struct ModeChangeError<E, DEV> {
    /// Two-wire bus error.
    pub error: Error<E>,
    /// Original device without the mode changed.
    pub dev: DEV,
}

/// Unscaled acceleration measurement.
#[derive(Debug, Clone, Copy, PartialEq, Eq, Structural)]
pub struct UnscaledMeasurement {
    /// X-axis acceleration.
    pub x: i16,
    /// Y-axis acceleration.
    pub y: i16,
    /// Z-axis acceleration.
    pub z: i16,
}

impl Default for UnscaledMeasurement {
    /// All three axes zero.
    fn default() -> (r: Self)
        ensures
            r == (UnscaledMeasurement { x: 0, y: 0, z: 0 }),
    {
        UnscaledMeasurement { x: 0, y: 0, z: 0 }
    }
}

/// G scale: the full-scale measurement range.
#[derive(Debug, Clone, Copy, PartialEq, Eq, Structural)]
pub enum GScale {
    /// Range: +/-2g.
    G2,
    /// Range: +/-4g.
    G4,
    /// Range: +/-8g.
    G8,
}

/// Read mode.
#[derive(Debug, Clone, Copy, PartialEq, Eq, Structural)]
pub enum ReadMode {
    /// Normal read mode (default).
    Normal,
    /// Fast read mode.
    Fast,
}

/// Output data rate.
#[derive(Debug, Clone, Copy, PartialEq, Eq, Structural)]
pub enum OutputDataRate {
    /// 800 Hz (default).
    Hz800,
    /// 400 Hz.
    Hz400,
    /// 200 Hz.
    Hz200,
    /// 100 Hz.
    Hz100,
    /// 50 Hz.
    Hz50,
    /// 12.5 Hz.
    Hz12_5,
    /// 6.25 Hz.
    Hz6_25,
    /// 1.56 Hz.
    Hz1_56,
}

/// Sampling rate used in auto-sleep/wake mode.
#[derive(Debug, Clone, Copy, PartialEq, Eq, Structural)]
pub enum AutoSleepDataRate {
    /// 50 Hz (default).
    Hz50,
    /// 12.5 Hz.
    Hz12_5,
    /// 6.25 Hz.
    Hz6_25,
    /// 1.56 Hz.
    Hz1_56,
}

/// Power mode.
#[derive(Debug, Clone, Copy, PartialEq, Eq, Structural)]
pub enum PowerMode {
    /// Normal (default).
    Normal,
    /// Low noise low power.
    LowNoiseLowPower,
    /// High resolution.
    HighResolution,
    /// Low power.
    LowPower,
}

/// Current system mode.
#[derive(Debug, Clone, Copy, PartialEq, Eq, Structural)]
pub enum SystemMode {
    /// Standby mode.
    Standby,
    /// Wake mode.
    Wake,
    /// Sleep mode.
    Sleep,
}

/// Current data status.
#[derive(Debug, Clone, Copy, PartialEq, Eq, Structural)]
pub struct DataStatus {
    /// X,Y,Z-axis data overwrite.
    pub xyz_overwrite: bool,
    /// X-axis data overwrite.
    pub x_overwrite: bool,
    /// Y-axis data overwrite.
    pub y_overwrite: bool,
    /// Z-axis data overwrite.
    pub z_overwrite: bool,
    /// X,Y,Z-axis new data ready.
    pub xyz_new_data: bool,
    /// X-axis new data ready.
    pub x_new_data: bool,
    /// Y-axis new data ready.
    pub y_new_data: bool,
    /// Z-axis new data ready.
    pub z_new_data: bool,
}

impl Default for DataStatus {
    /// All flags clear.
    fn default() -> (r: Self)
        ensures
            r == (DataStatus {
                xyz_overwrite: false,
                x_overwrite: false,
                y_overwrite: false,
                z_overwrite: false,
                xyz_new_data: false,
                x_new_data: false,
                y_new_data: false,
                z_new_data: false,
            }),
    {
        DataStatus {
            xyz_overwrite: false,
            x_overwrite: false,
            y_overwrite: false,
            z_overwrite: false,
            xyz_new_data: false,
            x_new_data: false,
            y_new_data: false,
            z_new_data: false,
        }
    }
}

/// Portrait/landscape debounce counter mode.
#[derive(Debug, Clone, Copy, PartialEq, Eq, Structural)]
pub enum DebounceCounterMode {
    /// Decrements the debounce counter whenever the condition of interest is
    /// no longer valid.
    Decrement,
    /// Clears the counter whenever the condition of interest is no longer
    /// valid (default).
    Clear,
}

/// Portrait/Landscape orientation.
#[derive(Debug, Clone, Copy, PartialEq, Eq, Structural)]
pub enum PortraitLandscapeOrientation {
    /// Equipment is standing vertically in the normal orientation (default).
    PortraitUp,
    /// Equipment is standing vertically in the inverted orientation.
    PortraitDown,
    /// Equipment is standing in landscape mode to the right.
    LandscapeRight,
    /// Equipment is standing in landscape mode to the left.
    LandscapeLeft,
}

impl Default for PortraitLandscapeOrientation {
    /// The normal vertical orientation.
    fn default() -> (r: Self)
        ensures
            r == PortraitLandscapeOrientation::PortraitUp,
    {
        PortraitLandscapeOrientation::PortraitUp
    }
}

/// Front/Back orientation.
#[derive(Debug, Clone, Copy, PartialEq, Eq, Structural)]
pub enum FrontBackOrientation {
    /// Equipment is in front-facing orientation (default).
    Front,
    /// Equipment is in back-facing orientation.
    Back,
}

impl Default for FrontBackOrientation {
    /// The front-facing orientation.
    fn default() -> (r: Self)
        ensures
            r == FrontBackOrientation::Front,
    {
        FrontBackOrientation::Front
    }
}

/// Current portrait/landscape status.
#[derive(Debug, Clone, Copy, PartialEq, Eq, Structural)]
pub struct PortraitLandscapeStatus {
    /// True if any of the other fields changed.
    pub something_changed: bool,
    /// Z-tilt angle lookout detected.
    pub z_tilt_angle_lookout: bool,
    /// Portrait/Landscape orientation.
    pub portrait_landscape: PortraitLandscapeOrientation,
    /// Front/Back orientation.
    pub front_back: FrontBackOrientation,
}

impl Default for PortraitLandscapeStatus {
    /// No change reported and the default orientations.
    fn default() -> (r: Self)
        ensures
            r == (PortraitLandscapeStatus {
                something_changed: false,
                z_tilt_angle_lookout: false,
                portrait_landscape: PortraitLandscapeOrientation::PortraitUp,
                front_back: FrontBackOrientation::Front,
            }),
    {
        PortraitLandscapeStatus {
            something_changed: false,
            z_tilt_angle_lookout: false,
            portrait_landscape: PortraitLandscapeOrientation::PortraitUp,
            front_back: FrontBackOrientation::Front,
        }
    }
}

/// Freefall/Motion detection mode.
#[derive(Debug, Clone, Copy, PartialEq, Eq, Structural)]
pub enum FreefallMotionDetectionMode {
    /// Detect freefall (default).
    Freefall,
    /// Detect motion.
    Motion,
}

impl Default for FreefallMotionDetectionMode {
    /// Freefall detection.
    fn default() -> (r: Self)
        ensures
            r == FreefallMotionDetectionMode::Freefall,
    {
        FreefallMotionDetectionMode::Freefall
    }
}

/// Freefall/Motion debounce mode.
#[derive(Debug, Clone, Copy, PartialEq, Eq, Structural)]
pub enum FreefallMotionDebounceMode {
    /// Increments or decrements the debounce counter (default).
    IncrementOrDecrement,
    /// Increments or clears the counter.
    IncrementOrClear,
}

impl Default for FreefallMotionDebounceMode {
    /// Increment-or-decrement counting.
    fn default() -> (r: Self)
        ensures
            r == FreefallMotionDebounceMode::IncrementOrDecrement,
    {
        FreefallMotionDebounceMode::IncrementOrDecrement
    }
}

/// Freefall/Motion detection configuration.
#[derive(Debug, Clone, Copy, PartialEq, Eq, Structural)]
pub struct FreefallMotionConfiguration {
    /// If true, an event is latched into the source register and must be read
    /// to be cleared.
    pub event_latch: bool,
    /// Detection mode.
    pub detection_mode: FreefallMotionDetectionMode,
    /// Enable detection in the x-axis.
    pub x_axis: bool,
    /// Enable detection in the y-axis.
    pub y_axis: bool,
    /// Enable detection in the z-axis.
    pub z_axis: bool,
    /// Detection threshold, in 1/1000 g.
    pub threshold: u16,
    /// Debounce counter mode.
    pub debounce_mode: FreefallMotionDebounceMode,
    /// Debounce sample count.
    pub debounce_count: u8,
}

impl Default for FreefallMotionConfiguration {
    /// Freefall detection on all three axes with a 500/1000 g threshold.
    fn default() -> (r: Self)
        ensures
            r == (FreefallMotionConfiguration {
                event_latch: false,
                detection_mode: FreefallMotionDetectionMode::Freefall,
                x_axis: true,
                y_axis: true,
                z_axis: true,
                threshold: 500,
                debounce_mode: FreefallMotionDebounceMode::IncrementOrDecrement,
                debounce_count: 0,
            }),
    {
        FreefallMotionConfiguration {
            event_latch: false,
            detection_mode: FreefallMotionDetectionMode::Freefall,
            x_axis: true,
            y_axis: true,
            z_axis: true,
            threshold: 500,
            debounce_mode: FreefallMotionDebounceMode::IncrementOrDecrement,
            debounce_count: 0,
        }
    }
}

/// Freefall/Motion axis activity.
#[derive(Debug, Clone, Copy, PartialEq, Eq, Structural)]
pub enum FreefallMotionAxisActivity {
    /// Motion in the axis not detected.
    Inactive,
    /// Positive axis movement detected.
    Positive,
    /// Negative axis movement detected.
    Negative,
}

/// Freefall/Motion event source.
#[derive(Debug, Clone, Copy, PartialEq, Eq, Structural)]
pub struct FreefallMotionSource {
    /// Movement activity in the x-axis.
    pub x_axis: FreefallMotionAxisActivity,
    /// Movement activity in the y-axis.
    pub y_axis: FreefallMotionAxisActivity,
    /// Movement activity in the z-axis.
    pub z_axis: FreefallMotionAxisActivity,
}

/// Current interrupt status.
#[derive(Debug, Clone, Copy, PartialEq, Eq, Structural)]
pub struct InterruptStatus {
    /// Auto-sleep/wake interrupt occurred.
    pub auto_sleep: bool,
    /// FIFO interrupt occurred.
    pub fifo: bool,
    /// Acceleration transient value greater than the user-specified threshold
    /// has occurred.
    pub transient: bool,
    /// Portrait/landscape orientation interrupt occurred.
    pub portrait_landscape: bool,
    /// Single and/or double pulse interrupt occurred.
    pub pulse: bool,
    /// Freefall/motion interrupt occurred.
    pub freefall_motion: bool,
    /// New data ready and/or data overrun interrupt occurred.
    pub data_ready: bool,
}

impl Default for InterruptStatus {
    /// No interrupt source active.
    fn default() -> (r: Self)
        ensures
            r == (InterruptStatus {
                auto_sleep: false,
                fifo: false,
                transient: false,
                portrait_landscape: false,
                pulse: false,
                freefall_motion: false,
                data_ready: false,
            }),
    {
        InterruptStatus {
            auto_sleep: false,
            fifo: false,
            transient: false,
            portrait_landscape: false,
            pulse: false,
            freefall_motion: false,
            data_ready: false,
        }
    }
}

/// Interrupt source enable/disable.
///
/// Unavailable interrupt sources on a device are ignored.
#[derive(Debug, Clone, Copy, PartialEq, Eq, Structural)]
pub struct EnabledInterrupts {
    /// Auto-sleep/wake interrupt enabled.
    pub auto_sleep: bool,
    /// FIFO interrupt enabled.
    pub fifo: bool,
    /// Acceleration transient interrupt enabled.
    pub transient: bool,
    /// Portrait/landscape orientation interrupt enabled.
    pub portrait_landscape: bool,
    /// Single and/or double pulse detection interrupt enabled.
    pub pulse: bool,
    /// Freefall/motion interrupt enabled.
    pub freefall_motion: bool,
    /// Data ready interrupt enabled.
    pub data_ready: bool,
}

impl Default for EnabledInterrupts {
    /// Every interrupt source disabled.
    fn default() -> (r: Self)
        ensures
            r == (EnabledInterrupts {
                auto_sleep: false,
                fifo: false,
                transient: false,
                portrait_landscape: false,
                pulse: false,
                freefall_motion: false,
                data_ready: false,
            }),
    {
        EnabledInterrupts {
            auto_sleep: false,
            fifo: false,
            transient: false,
            portrait_landscape: false,
            pulse: false,
            freefall_motion: false,
            data_ready: false,
        }
    }
}

/// Physical interrupt pin polarity.
#[derive(Debug, Clone, Copy, PartialEq, Eq, Structural)]
pub enum InterruptPinPolarity {
    /// Low state when active (default).
    ActiveLow,
    /// High state when active.
    ActiveHigh,
}

/// Physical interrupt pin configuration.
#[derive(Debug, Clone, Copy, PartialEq, Eq, Structural)]
pub enum InterruptPinConfiguration {
    /// Push-pull configuration (default).
    PushPull,
    /// Open drain configuration.
    OpenDrain,
}

/// Interrupt source pin route.
#[derive(Debug, Clone, Copy, PartialEq, Eq, Structural)]
pub enum InterruptSourcePinRoute {
    /// Source is routed to pin INT1.
    Int1,
    /// Source is routed to pin INT2 (default).
    Int2,
}

impl Default for InterruptSourcePinRoute {
    /// Routed to pin INT2.
    fn default() -> (r: Self)
        ensures
            r == InterruptSourcePinRoute::Int2,
    {
        InterruptSourcePinRoute::Int2
    }
}

/// Interrupt source pin routes.
///
/// Unavailable interrupt sources on a device are ignored.
#[derive(Debug, Clone, Copy, PartialEq, Eq, Structural)]
pub struct InterruptPinRoutes {
    /// Auto-sleep/wake interrupt pin route (INT1/INT2).
    pub auto_sleep: InterruptSourcePinRoute,
    /// FIFO interrupt pin route (INT1/INT2).
    pub fifo: InterruptSourcePinRoute,
    /// Acceleration transient interrupt pin route (INT1/INT2).
    pub transient: InterruptSourcePinRoute,
    /// Portrait/landscape orientation interrupt pin route (INT1/INT2).
    pub portrait_landscape: InterruptSourcePinRoute,
    /// Single and/or double pulse detection interrupt pin route (INT1/INT2).
    pub pulse: InterruptSourcePinRoute,
    /// Freefall/motion interrupt pin route (INT1/INT2).
    pub freefall_motion: InterruptSourcePinRoute,
    /// Data ready interrupt pin route (INT1/INT2).
    pub data_ready: InterruptSourcePinRoute,
}

impl Default for InterruptPinRoutes {
    /// Every interrupt source routed to pin INT2.
    fn default() -> (r: Self)
        ensures
            r == (InterruptPinRoutes {
                auto_sleep: InterruptSourcePinRoute::Int2,
                fifo: InterruptSourcePinRoute::Int2,
                transient: InterruptSourcePinRoute::Int2,
                portrait_landscape: InterruptSourcePinRoute::Int2,
                pulse: InterruptSourcePinRoute::Int2,
                freefall_motion: InterruptSourcePinRoute::Int2,
                data_ready: InterruptSourcePinRoute::Int2,
            }),
    {
        InterruptPinRoutes {
            auto_sleep: InterruptSourcePinRoute::Int2,
            fifo: InterruptSourcePinRoute::Int2,
            transient: InterruptSourcePinRoute::Int2,
            portrait_landscape: InterruptSourcePinRoute::Int2,
            pulse: InterruptSourcePinRoute::Int2,
            freefall_motion: InterruptSourcePinRoute::Int2,
            data_ready: InterruptSourcePinRoute::Int2,
        }
    }
}

/// Interrupts that wake the device from sleep.
#[derive(Debug, Clone, Copy, PartialEq, Eq, Structural)]
pub struct WakeInterrupts {
    /// Acceleration transient interrupt.
    pub transient: bool,
    /// Portrait/landscape orientation interrupt.
    pub portrait_landscape: bool,
    /// Single and/or double pulse detection interrupt.
    pub pulse: bool,
    /// Freefall/motion interrupt.
    pub freefall_motion: bool,
}

impl Default for WakeInterrupts {
    /// No interrupt wakes the device.
    fn default() -> (r: Self)
        ensures
            r == (WakeInterrupts {
                transient: false,
                portrait_landscape: false,
                pulse: false,
                freefall_motion: false,
            }),
    {
        WakeInterrupts {
            transient: false,
            portrait_landscape: false,
            pulse: false,
            freefall_motion: false,
        }
    }
}

/// Possible slave addresses.
#[derive(Debug, Clone, Copy, PartialEq, Eq, Structural)]
pub enum SlaveAddr {
    /// Default slave address.
    Default,
    /// Alternative slave address providing the bit value for A0.
    Alternative(bool),
}

impl Default for SlaveAddr {
    /// The device's default slave address.
    fn default() -> (r: Self)
        ensures
            r == SlaveAddr::Default,
    {
        SlaveAddr::Default
    }
}

impl SlaveAddr {
    /// The resolved 7-bit bus address: the base address, with the lowest bit
    /// forced by the A0 selection when the alternative form is used.
    pub fn addr(self, default: u8) -> (r: u8)
        ensures
            r == spec_slave_addr(self, default),
    {
        match self {
            SlaveAddr::Default => default,
            SlaveAddr::Alternative(true) => default | 1,
            SlaveAddr::Alternative(false) => default,
        }
    }
}

/// The bus address selected by a `SlaveAddr` over a base address.
pub open spec fn spec_slave_addr(a: SlaveAddr, default: u8) -> u8 {
    match a {
        SlaveAddr::Default => default,
        SlaveAddr::Alternative(true) => default | 1,
        SlaveAddr::Alternative(false) => default,
    }
}

} // verus!
