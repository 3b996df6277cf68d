use mma8x5x::{convert_10bit, convert_12bit, convert_14bit, UnscaledMeasurement};

#[test]
fn can_convert_positive_10bit() {
    assert_eq!(
        UnscaledMeasurement {
            x: 0x10D,
            y: 0x10E,
            z: 0x10F
        },
        convert_10bit(0x10D << 6, 0x10E << 6, 0x10F << 6)
    );
}

#[test]
fn can_convert_negative_10bit() {
    assert_eq!(
        UnscaledMeasurement {
            x: -1,
            y: -256,
            z: -512
        },
        convert_10bit(
            0b11_1111_1111 << 6,
            0b11_0000_0000 << 6,
            0b10_0000_0000 << 6
        )
    );
}

#[test]
fn can_convert_positive_12bit() {
    assert_eq!(
        UnscaledMeasurement {
            x: 0x10D << 2,
            y: 0x10E << 2,
            z: 0x10F << 2
        },
        convert_12bit(0x10D << 6, 0x10E << 6, 0x10F << 6)
    );
}

#[test]
fn can_convert_negative_12bit() {
    assert_eq!(
        UnscaledMeasurement {
            x: -1,
            y: -1024,
            z: -2048
        },
        convert_12bit(
            0b1111_1111_1111 << 4,
            0b1100_0000_0000 << 4,
            0b1000_0000_0000 << 4
        )
    );
}

#[test]
fn can_convert_positive_14bit() {
    assert_eq!(
        UnscaledMeasurement {
            x: 0x10D << 4,
            y: 0x10E << 4,
            z: 0x10F << 4
        },
        convert_14bit(0x10D << 6, 0x10E << 6, 0x10F << 6)
    );
}

#[test]
fn can_convert_negative_14bit() {
    assert_eq!(
        UnscaledMeasurement {
            x: -1,
            y: -4096,
            z: -8192
        },
        convert_14bit(
            0b11_1111_1111_1111 << 2,
            0b11_0000_0000_0000 << 2,
            0b10_0000_0000_0000 << 2
        )
    );
}

#[test]
fn convert_10bit_handles_nonzero_low_bits() {
    let m = convert_10bit(0xFFFF, 0x0040, 0x8000);
    assert_eq!(m.x, -1);
    assert_eq!(m.y, 1);
    assert_eq!(m.z, -512);
}
