//! Status signal encoder: converts a 24-bit color into the single-wire,
//! self-clocked pulse sequence an addressable status LED understands. Each
//! of the 24 color bits, most significant first, becomes one high-then-low
//! pulse pair whose two durations encode the bit value. Durations are
//! computed from the effective tick rate of the transmitter's clock, which
//! the hardware layer queries and hands in as a plain frequency.
//!
//! The transmitter submits the whole 24-pair sequence as one unbroken
//! transmission; building that sequence is the logic verified here.

use vstd::arithmetic::div_mod::lemma_div_is_ordered;
use vstd::prelude::*;

verus! {

/// High duration of a logical 1 pulse pair, in nanoseconds.
pub const T1H_NS: u32 = 700;

/// Low duration of a logical 1 pulse pair, in nanoseconds.
pub const T1L_NS: u32 = 600;

/// High duration of a logical 0 pulse pair, in nanoseconds.
pub const T0H_NS: u32 = 350;

/// Low duration of a logical 0 pulse pair, in nanoseconds.
pub const T0L_NS: u32 = 800;

/// Largest pulse length the transmitter's 15-bit tick counter can hold.
pub const PULSE_TICKS_MAX: u16 = 0x7FFF;

/// An RGB color triple, 8 bits per channel.
#[derive(Debug, Clone, Copy, PartialEq, Eq, Structural)]
pub struct Rgb {
    pub r: u8,
    pub g: u8,
    pub b: u8,
}

/// The packed 24-bit value of a color: `(R << 16) | (G << 8) | B`.
pub open spec fn spec_packed_color(rgb: Rgb) -> u32 {
    ((rgb.r as u32) << 16 | (rgb.g as u32) << 8 | rgb.b as u32) as u32
}

impl Rgb {
    /// A color from its three channels.
    pub fn new(r: u8, g: u8, b: u8) -> (c: Rgb)
        ensures
            c == (Rgb { r, g, b }),
    {
        Rgb { r, g, b }
    }

    /// Packs the color as `(R << 16) | (G << 8) | B`.
    pub fn packed(&self) -> (c: u32)
        ensures
            c == spec_packed_color(*self),
    {
        (self.r as u32) << 16 | (self.g as u32) << 8 | self.b as u32
    }

    /// The color whose packed value is the low 24 bits of `color`.
    pub fn from_packed(color: u32) -> (c: Rgb)
        ensures
            c == (Rgb {
                r: ((color >> 16) & 0xFF) as u8,
                g: ((color >> 8) & 0xFF) as u8,
                b: (color & 0xFF) as u8,
            }),
    {
        Rgb {
            r: ((color >> 16) & 0xFF) as u8,
            g: ((color >> 8) & 0xFF) as u8,
            b: (color & 0xFF) as u8,
        }
    }
}

/// Failure while preparing the status LED signal: a requested pulse does
/// not fit the transmitter's tick counter at the given tick rate.
#[derive(Debug, Clone, PartialEq, Eq, Structural)]
pub struct SetNeopixelColorError;

/// One high-then-low pulse pair, durations in ticks of the transmitter's
/// clock.
#[derive(Debug, Clone, Copy, PartialEq, Eq, Structural)]
pub struct PulsePair {
    pub high_ticks: u16,
    pub low_ticks: u16,
}

/// How many whole clock ticks a duration of `ns` nanoseconds lasts at
/// `ticks_hz` ticks per second.
pub open spec fn spec_pulse_ticks(ticks_hz: u32, ns: u32) -> int {
    (ns as int) * (ticks_hz as int) / 1_000_000_000
}

/// The pulse pair that encodes a logical 0 at the given tick rate.
pub open spec fn spec_zero_pulse(ticks_hz: u32) -> PulsePair {
    PulsePair {
        high_ticks: spec_pulse_ticks(ticks_hz, T0H_NS) as u16,
        low_ticks: spec_pulse_ticks(ticks_hz, T0L_NS) as u16,
    }
}

/// The pulse pair that encodes a logical 1 at the given tick rate.
pub open spec fn spec_one_pulse(ticks_hz: u32) -> PulsePair {
    PulsePair {
        high_ticks: spec_pulse_ticks(ticks_hz, T1H_NS) as u16,
        low_ticks: spec_pulse_ticks(ticks_hz, T1L_NS) as u16,
    }
}

/// Whether the color bit sent at position `shift` (counted from bit 0) is
/// set.
pub open spec fn spec_color_bit(color: u32, shift: u32) -> bool {
    (1u32 << shift) & color != 0
}

/// Entry `k` of the emitted sequence: the pair encoding color bit `23 - k`,
/// so the most significant of the 24 packed color bits goes out first.
pub open spec fn spec_signal_entry(ticks_hz: u32, color: u32, k: int) -> PulsePair {
    if spec_color_bit(color, (23 - k) as u32) {
        spec_one_pulse(ticks_hz)
    } else {
        spec_zero_pulse(ticks_hz)
    }
}

/// Converts a nanosecond duration to whole ticks of the transmitter clock,
/// or fails if the count exceeds the 15-bit tick counter.
pub fn pulse_ticks(ticks_hz: u32, ns: u32) -> (r: Result<u16, SetNeopixelColorError>)
    ensures
        r is Ok <==> spec_pulse_ticks(ticks_hz, ns) <= PULSE_TICKS_MAX,
        r matches Ok(t) ==> t == spec_pulse_ticks(ticks_hz, ns),
{
    proof {
        assert((ns as int) * (ticks_hz as int) <= 0xFFFF_FFFF * 0xFFFF_FFFF)
            by (nonlinear_arith)
            requires
                ns <= 0xFFFF_FFFFu32,
                ticks_hz <= 0xFFFF_FFFFu32,
        ;
    }
    let product: u64 = (ns as u64) * (ticks_hz as u64);
    let ticks: u64 = product / 1_000_000_000;
    if ticks <= PULSE_TICKS_MAX as u64 {
        Ok(ticks as u16)
    } else {
        Err(SetNeopixelColorError)
    }
}

/// Ticks of one signal pulse. The four signal durations are at most 800 ns,
/// which fits the 15-bit tick counter at every 32-bit tick rate, so this
/// cannot fail where [`pulse_ticks`] could.
fn ticks_for(ticks_hz: u32, ns: u32) -> (t: u16)
    requires
        ns <= T0L_NS,
    ensures
        t == spec_pulse_ticks(ticks_hz, ns),
{
    proof {
        assert((ns as int) * (ticks_hz as int) <= 3_435_973_836_000)
            by (nonlinear_arith)
            requires
                ns <= 800,
                ticks_hz <= 0xFFFF_FFFFu32,
        ;
        lemma_div_is_ordered((ns as int) * (ticks_hz as int), 3_435_973_836_000, 1_000_000_000);
    }
    match pulse_ticks(ticks_hz, ns) {
        Ok(t) => t,
        Err(_) => {
            // A pulse this short fits the counter at any tick rate.
            proof {
                assert(false);
            }
            0
        },
    }
}

/// Builds the full 24-pulse-pair sequence for a packed 24-bit color at the
/// given tick rate, most significant color bit first. The caller submits
/// the sequence as one atomic transmission.
pub fn color_signal(ticks_hz: u32, color: u32) -> (s: Vec<PulsePair>)
    ensures
        s@.len() == 24,
        forall|k: int| 0 <= k < 24 ==> s@[k] == spec_signal_entry(ticks_hz, color, k),
{
    let t0h: u16 = ticks_for(ticks_hz, T0H_NS);
    let t0l: u16 = ticks_for(ticks_hz, T0L_NS);
    let t1h: u16 = ticks_for(ticks_hz, T1H_NS);
    let t1l: u16 = ticks_for(ticks_hz, T1L_NS);
    let zero_pulse = PulsePair { high_ticks: t0h, low_ticks: t0l };
    let one_pulse = PulsePair { high_ticks: t1h, low_ticks: t1l };
    let mut signal: Vec<PulsePair> = Vec::new();
    let mut k: usize = 0;
    while k < 24
        invariant
            k <= 24,
            signal@.len() == k as int,
            forall|j: int| 0 <= j < k ==> signal@[j] == spec_signal_entry(ticks_hz, color, j),
            zero_pulse == spec_zero_pulse(ticks_hz),
            one_pulse == spec_one_pulse(ticks_hz),
        decreases 24 - k,
    {
        let shift: u32 = 23 - (k as u32);
        let bit: bool = (1u32 << shift) & color != 0;
        if bit {
            signal.push(one_pulse);
        } else {
            signal.push(zero_pulse);
        }
        k = k + 1;
    }
    signal
}

} // verus!
