//! Raw sample conversion. Samples arrive left-justified in 16-bit big-endian
//! words; each is arithmetically shifted right by the resolution-dependent
//! amount (6 for 10-bit, 4 for 12-bit, 2 for 14-bit devices), preserving the
//! sign of the two's-complement value.

use vstd::prelude::*;
use vstd::arithmetic::div_mod::{
    lemma_fundamental_div_mod, lemma_fundamental_div_mod_converse, lemma_mod_bound,
};
use crate::types::UnscaledMeasurement;

verus! {

/// The signed value a 16-bit word holds in two's complement.
pub open spec fn as_signed16(w: u16) -> int {
    if w >= 0x8000 {
        w - 0x10000
    } else {
        w as int
    }
}

/// A 10-bit sample: the word's signed value arithmetically shifted right by 6
/// (division by 64, rounding toward negative infinity).
pub open spec fn spec_sample_10bit(w: u16) -> int {
    as_signed16(w) / 64
}

/// A 12-bit sample: the word's signed value arithmetically shifted right by 4.
pub open spec fn spec_sample_12bit(w: u16) -> int {
    as_signed16(w) / 16
}

/// A 14-bit sample: the word's signed value arithmetically shifted right by 2.
pub open spec fn spec_sample_14bit(w: u16) -> int {
    as_signed16(w) / 4
}

fn decode_10bit(w: u16) -> (r: i16)
    ensures
        r as int == spec_sample_10bit(w),
{
    assert((w >> 6u16) == w / 64 && w / 64 < 1024 && ((w & 0x8000) != 0 == (w >= 0x8000)) && (w
        < 0x8000 ==> ((w >> 6u16) as i16) == w >> 6u16) && (w >= 0x8000 ==> (((w >> 6u16)
        | 0xFC00) as i16) == (w >> 6u16) - 1024)) by (bit_vector);
    let shifted: u16 = w >> 6;
    if (w & 0x8000) != 0 {
        proof {
            lemma_fundamental_div_mod(w as int, 64);
            lemma_mod_bound(w as int, 64);
            lemma_fundamental_div_mod_converse(
                w - 0x10000,
                64,
                w as int / 64 - 1024,
                w as int % 64,
            );
        }
        (shifted | 0xFC00) as i16
    } else {
        shifted as i16
    }
}

fn decode_12bit(w: u16) -> (r: i16)
    ensures
        r as int == spec_sample_12bit(w),
{
    assert((w >> 4u16) == w / 16 && w / 16 < 4096 && ((w & 0x8000) != 0 == (w >= 0x8000)) && (w
        < 0x8000 ==> ((w >> 4u16) as i16) == w >> 4u16) && (w >= 0x8000 ==> (((w >> 4u16)
        | 0xF000) as i16) == (w >> 4u16) - 4096)) by (bit_vector);
    let shifted: u16 = w >> 4;
    if (w & 0x8000) != 0 {
        proof {
            lemma_fundamental_div_mod(w as int, 16);
            lemma_mod_bound(w as int, 16);
            lemma_fundamental_div_mod_converse(
                w - 0x10000,
                16,
                w as int / 16 - 4096,
                w as int % 16,
            );
        }
        (shifted | 0xF000) as i16
    } else {
        shifted as i16
    }
}

fn decode_14bit(w: u16) -> (r: i16)
    ensures
        r as int == spec_sample_14bit(w),
{
    assert((w >> 2u16) == w / 4 && w / 4 < 16384 && ((w & 0x8000) != 0 == (w >= 0x8000)) && (w
        < 0x8000 ==> ((w >> 2u16) as i16) == w >> 2u16) && (w >= 0x8000 ==> (((w >> 2u16)
        | 0xC000) as i16) == (w >> 2u16) - 16384)) by (bit_vector);
    let shifted: u16 = w >> 2;
    if (w & 0x8000) != 0 {
        proof {
            lemma_fundamental_div_mod(w as int, 4);
            lemma_mod_bound(w as int, 4);
            lemma_fundamental_div_mod_converse(
                w - 0x10000,
                4,
                w as int / 4 - 16384,
                w as int % 4,
            );
        }
        (shifted | 0xC000) as i16
    } else {
        shifted as i16
    }
}

/// Convert three 16-bit words into 10-bit samples.
pub fn convert_10bit(x: u16, y: u16, z: u16) -> (m: UnscaledMeasurement)
    ensures
        m.x as int == spec_sample_10bit(x),
        m.y as int == spec_sample_10bit(y),
        m.z as int == spec_sample_10bit(z),
{
    UnscaledMeasurement { x: decode_10bit(x), y: decode_10bit(y), z: decode_10bit(z) }
}

/// Convert three 16-bit words into 12-bit samples.
pub fn convert_12bit(x: u16, y: u16, z: u16) -> (m: UnscaledMeasurement)
    ensures
        m.x as int == spec_sample_12bit(x),
        m.y as int == spec_sample_12bit(y),
        m.z as int == spec_sample_12bit(z),
{
    UnscaledMeasurement { x: decode_12bit(x), y: decode_12bit(y), z: decode_12bit(z) }
}

/// Convert three 16-bit words into 14-bit samples.
pub fn convert_14bit(x: u16, y: u16, z: u16) -> (m: UnscaledMeasurement)
    ensures
        m.x as int == spec_sample_14bit(x),
        m.y as int == spec_sample_14bit(y),
        m.z as int == spec_sample_14bit(z),
{
    UnscaledMeasurement { x: decode_14bit(x), y: decode_14bit(y), z: decode_14bit(z) }
}

/// A 10-bit code placed in the upper bits of a 16-bit word decodes back to
/// exactly that code: codes below 512 are recovered unchanged, and codes with
/// the sign bit set are sign-extended (the all-ones pattern decodes to -1).
pub proof fn lemma_sample_10bit_recovers_code(raw: u16)
    requires
        raw < 0x400,
    ensures
        spec_sample_10bit(raw << 6u16) == if raw < 0x200 {
            raw as int
        } else {
            raw - 0x400
        },
{
    assert(raw < 0x400 ==> (raw << 6u16) == raw * 64 && (raw < 0x200 <==> (raw << 6u16)
        < 0x8000)) by (bit_vector);
    let w = raw << 6u16;
    if raw < 0x200 {
        lemma_fundamental_div_mod_converse(w as int, 64, raw as int, 0);
    } else {
        lemma_fundamental_div_mod_converse(w - 0x10000, 64, raw - 0x400, 0);
    }
}

/// A 12-bit code placed in the upper bits of a 16-bit word decodes back to
/// exactly that code, sign-extending codes with the sign bit set.
pub proof fn lemma_sample_12bit_recovers_code(raw: u16)
    requires
        raw < 0x1000,
    ensures
        spec_sample_12bit(raw << 4u16) == if raw < 0x800 {
            raw as int
        } else {
            raw - 0x1000
        },
{
    assert(raw < 0x1000 ==> (raw << 4u16) == raw * 16 && (raw < 0x800 <==> (raw << 4u16)
        < 0x8000)) by (bit_vector);
    let w = raw << 4u16;
    if raw < 0x800 {
        lemma_fundamental_div_mod_converse(w as int, 16, raw as int, 0);
    } else {
        lemma_fundamental_div_mod_converse(w - 0x10000, 16, raw - 0x1000, 0);
    }
}

/// A 14-bit code placed in the upper bits of a 16-bit word decodes back to
/// exactly that code, sign-extending codes with the sign bit set.
pub proof fn lemma_sample_14bit_recovers_code(raw: u16)
    requires
        raw < 0x4000,
    ensures
        spec_sample_14bit(raw << 2u16) == if raw < 0x2000 {
            raw as int
        } else {
            raw - 0x4000
        },
{
    assert(raw < 0x4000 ==> (raw << 2u16) == raw * 4 && (raw < 0x2000 <==> (raw << 2u16)
        < 0x8000)) by (bit_vector);
    let w = raw << 2u16;
    if raw < 0x2000 {
        lemma_fundamental_div_mod_converse(w as int, 4, raw as int, 0);
    } else {
        lemma_fundamental_div_mod_converse(w - 0x10000, 4, raw - 0x4000, 0);
    }
}

} // verus!
