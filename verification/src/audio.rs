//! Square-wave sample generation for the host's audio queue.
use vstd::prelude::*;

verus! {

/// Samples per half-period of the 256 Hz square wave at 48 kHz.
pub const WAVE_PERIOD: i32 = 187;

/// Generate a square wave: `bytes_to_write` samples alternating between
/// +1000 and -1000 every 187 samples.
pub fn gen_wave(bytes_to_write: i32) -> (r: Vec<i16>)
    ensures
        r@.len() == (if bytes_to_write > 0 {
            bytes_to_write as int
        } else {
            0
        }),
        forall|i: int|
            0 <= i < r@.len() ==> r@[i] == (if (i / (WAVE_PERIOD as int)) % 2 == 0 {
                1000i16
            } else {
                -1000i16
            }),
{
    let tone_volume: i16 = 1000;
    let period: i32 = WAVE_PERIOD;
    let mut result: Vec<i16> = Vec::new();
    let mut x: i32 = 0;
    while x < bytes_to_write
        invariant
            0 <= x,
            bytes_to_write > 0 ==> x <= bytes_to_write,
            bytes_to_write <= 0 ==> x == 0,
            period == WAVE_PERIOD,
            tone_volume == 1000,
            result@.len() == x,
            forall|i: int|
                0 <= i < x ==> result@[i] == (if (i / (WAVE_PERIOD as int)) % 2 == 0 {
                    1000i16
                } else {
                    -1000i16
                }),
        decreases bytes_to_write - x,
    {
        result.push(
            if (x / period) % 2 == 0 {
                tone_volume
            } else {
                -tone_volume
            },
        );
        x += 1;
    }
    result
}

} // verus!
