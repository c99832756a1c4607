use io_expander::neopixel::{color_signal, pulse_ticks, PulsePair, Rgb};

// A typical transmitter tick rate: 80 MHz with clock divider 1.
const TICKS_HZ: u32 = 80_000_000;

// At 80 MHz one tick is 12.5 ns, so the four signal durations come to these
// whole tick counts.
const ZERO_PULSE: PulsePair = PulsePair { high_ticks: 28, low_ticks: 64 };
const ONE_PULSE: PulsePair = PulsePair { high_ticks: 56, low_ticks: 48 };

#[test]
fn pulse_ticks_converts_durations_exactly() {
    assert_eq!(pulse_ticks(TICKS_HZ, 350), Ok(28));
    assert_eq!(pulse_ticks(TICKS_HZ, 800), Ok(64));
    assert_eq!(pulse_ticks(TICKS_HZ, 700), Ok(56));
    assert_eq!(pulse_ticks(TICKS_HZ, 600), Ok(48));
    // Whole ticks only: 500 ns at 3 MHz is 1.5 ticks and truncates to 1.
    assert_eq!(pulse_ticks(3_000_000, 500), Ok(1));
    assert_eq!(pulse_ticks(1_000_000, 350), Ok(0));
}

#[test]
fn pulse_ticks_rejects_counts_beyond_the_counter() {
    // One full second at 80 MHz is far more than the 15-bit counter holds.
    assert!(pulse_ticks(TICKS_HZ, 1_000_000_000).is_err());
    // The largest count that still fits, and the first that does not:
    // at 1 GHz one tick is one nanosecond.
    assert_eq!(pulse_ticks(1_000_000_000, 32_767), Ok(32_767));
    assert!(pulse_ticks(1_000_000_000, 32_768).is_err());
}

#[test]
fn signal_for_one_color_has_expected_shape() {
    // Color 0x010204 packed MSB-first: bit 16 (entry 7), bit 9 (entry 14)
    // and bit 2 (entry 21) are set; all other 21 entries encode a 0.
    let signal = color_signal(TICKS_HZ, 0x010204);
    assert_eq!(signal.len(), 24);
    for (k, pair) in signal.iter().enumerate() {
        assert!(*pair == ZERO_PULSE || *pair == ONE_PULSE);
        if k == 7 || k == 14 || k == 21 {
            assert_eq!(*pair, ONE_PULSE);
        } else {
            assert_eq!(*pair, ZERO_PULSE);
        }
    }
}

#[test]
fn signal_extremes_are_uniform() {
    let signal = color_signal(TICKS_HZ, 0x000000);
    assert_eq!(signal.len(), 24);
    assert!(signal.iter().all(|pair| *pair == ZERO_PULSE));
    let signal = color_signal(TICKS_HZ, 0xFFFFFF);
    assert_eq!(signal.len(), 24);
    assert!(signal.iter().all(|pair| *pair == ONE_PULSE));
}

#[test]
fn signal_ignores_bits_above_the_color() {
    // Only the low 24 bits of the packed value are sent.
    assert_eq!(color_signal(TICKS_HZ, 0xFF000000), color_signal(TICKS_HZ, 0));
}

#[test]
fn rgb_packs_as_r_g_b() {
    assert_eq!(Rgb::new(1, 2, 4).packed(), 0x010204);
    assert_eq!(Rgb::new(0xAB, 0xCD, 0xEF).packed(), 0xABCDEF);
    let c = Rgb::from_packed(0x123456);
    assert_eq!((c.r, c.g, c.b), (0x12, 0x34, 0x56));
    // The top byte of a packed value has no channel.
    let c = Rgb::from_packed(0xFF010204);
    assert_eq!((c.r, c.g, c.b), (1, 2, 4));
    assert_eq!(Rgb::from_packed(Rgb::new(64, 0, 0).packed()), Rgb::new(64, 0, 0));
}
