//! Pin resource manager: two independent pin groups ("Side A", "Side B"),
//! each in at most one exclusive hardware mode at a time (unconfigured,
//! digital I/O, or analog input). Entering a new mode always tears the
//! previous driver set down first, because the hardware binds one peripheral
//! function to a pin at a time; the tagged side enums make it impossible to
//! hold two materialized modes at once.
//!
//! The driver sets themselves are modeled over plain values with loopback
//! semantics: a digital pin reads back the level it was last driven to, and
//! an analog channel returns the conversion result presented to the model.

use vstd::prelude::*;

use crate::com::{AnalogReadPort, DigitalPort, spec_analog_channel};

verus! {

/// Digital driver set of Side A: seven pins, group member i read and driven
/// as bit i of the packed byte (bit 7 of the byte is unused).
#[derive(Debug, Clone, PartialEq, Eq, Structural)]
pub struct PinDriversDigitalA {
    pub a0_ad: bool,
    pub a1_ad: bool,
    pub a2_ad: bool,
    pub a3_ad: bool,
    pub a4_ad: bool,
    pub a5_ad: bool,
    pub a7_d: bool,
}

/// Digital driver set of Side B: eight pins, one per bit of the packed byte.
#[derive(Debug, Clone, PartialEq, Eq, Structural)]
pub struct PinDriversDigitalB {
    pub b0_d: bool,
    pub b1_d: bool,
    pub b2_d: bool,
    pub b3_d: bool,
    pub b4_d: bool,
    pub b5_d: bool,
    pub b6_d: bool,
    pub b7_d: bool,
}

/// Analog driver set of Side A: the six physically wired converter channels.
/// Each field holds the conversion result the channel currently returns.
#[derive(Debug, Clone, PartialEq, Eq, Structural)]
pub struct PinDriversAnalogA {
    pub a0_ad: u16,
    pub a1_ad: u16,
    pub a2_ad: u16,
    pub a3_ad: u16,
    pub a4_ad: u16,
    pub a5_ad: u16,
}

/// Exclusive mode of Side A: the variant owns the materialized driver set.
#[derive(Debug, Clone, PartialEq, Eq, Structural)]
pub enum ASidePinDrivers {
    Unconfigured,
    Digital(PinDriversDigitalA),
    Analog(PinDriversAnalogA),
}

/// Exclusive mode of Side B, which has no analog capability.
#[derive(Debug, Clone, PartialEq, Eq, Structural)]
pub enum BSidePinDrivers {
    Unconfigured,
    Digital(PinDriversDigitalB),
}

/// The byte that a read of Side A's pins packs: group member i becomes
/// bit i, and bit 7 stays clear.
pub open spec fn spec_packed_a(d: PinDriversDigitalA) -> u8 {
    ((if d.a0_ad { 0x01int } else { 0int }) + (if d.a1_ad { 0x02int } else { 0int }) + (if d.a2_ad {
        0x04int
    } else {
        0int
    }) + (if d.a3_ad { 0x08int } else { 0int }) + (if d.a4_ad { 0x10int } else { 0int }) + (
    if d.a5_ad {
        0x20int
    } else {
        0int
    }) + (if d.a7_d { 0x40int } else { 0int })) as u8
}

/// The byte that a read of Side B's pins packs.
pub open spec fn spec_packed_b(d: PinDriversDigitalB) -> u8 {
    ((if d.b0_d { 0x01int } else { 0int }) + (if d.b1_d { 0x02int } else { 0int }) + (if d.b2_d {
        0x04int
    } else {
        0int
    }) + (if d.b3_d { 0x08int } else { 0int }) + (if d.b4_d { 0x10int } else { 0int }) + (
    if d.b5_d {
        0x20int
    } else {
        0int
    }) + (if d.b6_d { 0x40int } else { 0int }) + (if d.b7_d { 0x80int } else { 0int })) as u8
}

/// Side A driver levels after a write: bit i of the value drives member i;
/// bit 7 has no pin and is ignored.
pub open spec fn spec_written_a(value: u8) -> PinDriversDigitalA {
    PinDriversDigitalA {
        a0_ad: value & 0x01 != 0,
        a1_ad: value & 0x02 != 0,
        a2_ad: value & 0x04 != 0,
        a3_ad: value & 0x08 != 0,
        a4_ad: value & 0x10 != 0,
        a5_ad: value & 0x20 != 0,
        a7_d: value & 0x40 != 0,
    }
}

/// Side B driver levels after a write: bit i of the value drives member i.
pub open spec fn spec_written_b(value: u8) -> PinDriversDigitalB {
    PinDriversDigitalB {
        b0_d: value & 0x01 != 0,
        b1_d: value & 0x02 != 0,
        b2_d: value & 0x04 != 0,
        b3_d: value & 0x08 != 0,
        b4_d: value & 0x10 != 0,
        b5_d: value & 0x20 != 0,
        b6_d: value & 0x40 != 0,
        b7_d: value & 0x80 != 0,
    }
}

/// Fresh Side A digital drivers: every pin starts driven low.
pub open spec fn spec_fresh_digital_a() -> PinDriversDigitalA {
    PinDriversDigitalA {
        a0_ad: false,
        a1_ad: false,
        a2_ad: false,
        a3_ad: false,
        a4_ad: false,
        a5_ad: false,
        a7_d: false,
    }
}

/// Fresh Side B digital drivers: every pin starts driven low.
pub open spec fn spec_fresh_digital_b() -> PinDriversDigitalB {
    PinDriversDigitalB {
        b0_d: false,
        b1_d: false,
        b2_d: false,
        b3_d: false,
        b4_d: false,
        b5_d: false,
        b6_d: false,
        b7_d: false,
    }
}

/// Fresh Side A analog drivers: every channel starts at conversion result 0.
pub open spec fn spec_fresh_analog_a() -> PinDriversAnalogA {
    PinDriversAnalogA { a0_ad: 0, a1_ad: 0, a2_ad: 0, a3_ad: 0, a4_ad: 0, a5_ad: 0 }
}

/// What an analog read of Side A returns: channels 0 to 5 route to their
/// converter channel; channels 6 and 7 have no physical mapping and return
/// a constant 0, keeping the protocol's 8-channel address space.
pub open spec fn spec_analog_read_a(d: PinDriversAnalogA, port: AnalogReadPort) -> u16 {
    match port {
        AnalogReadPort::Port1 => d.a0_ad,
        AnalogReadPort::Port2 => d.a1_ad,
        AnalogReadPort::Port3 => d.a2_ad,
        AnalogReadPort::Port4 => d.a3_ad,
        AnalogReadPort::Port5 => d.a4_ad,
        AnalogReadPort::Port6 => d.a5_ad,
        AnalogReadPort::Port7 => 0,
        AnalogReadPort::Port8 => 0,
    }
}

impl PinDriversDigitalA {
    /// Materializes the digital driver set of Side A; a fresh set drives
    /// every pin low.
    pub fn new() -> (d: PinDriversDigitalA)
        ensures
            d == spec_fresh_digital_a(),
    {
        PinDriversDigitalA {
            a0_ad: false,
            a1_ad: false,
            a2_ad: false,
            a3_ad: false,
            a4_ad: false,
            a5_ad: false,
            a7_d: false,
        }
    }

    /// Reads the logic level of every pin of the group and packs them into
    /// one byte, group member 0 into bit 0 and so on; bit 7 stays clear.
    pub fn digital_read(&self) -> (r: u8)
        ensures
            r == spec_packed_a(*self),
    {
        let mut result: u8 = 0;
        if self.a0_ad {
            result = result + 0x01;
        }
        if self.a1_ad {
            result = result + 0x02;
        }
        if self.a2_ad {
            result = result + 0x04;
        }
        if self.a3_ad {
            result = result + 0x08;
        }
        if self.a4_ad {
            result = result + 0x10;
        }
        if self.a5_ad {
            result = result + 0x20;
        }
        if self.a7_d {
            result = result + 0x40;
        }
        result
    }

    /// Unpacks the byte in the same fixed bit order and drives each pin:
    /// bit i set drives member i high, else low. Bit 7 has no pin.
    pub fn digital_write(&mut self, value: u8)
        ensures
            *final(self) == spec_written_a(value),
    {
        self.a0_ad = value & 0x01 != 0;
        self.a1_ad = value & 0x02 != 0;
        self.a2_ad = value & 0x04 != 0;
        self.a3_ad = value & 0x08 != 0;
        self.a4_ad = value & 0x10 != 0;
        self.a5_ad = value & 0x20 != 0;
        self.a7_d = value & 0x40 != 0;
    }
}

impl PinDriversDigitalB {
    /// Materializes the digital driver set of Side B; a fresh set drives
    /// every pin low.
    pub fn new() -> (d: PinDriversDigitalB)
        ensures
            d == spec_fresh_digital_b(),
    {
        PinDriversDigitalB {
            b0_d: false,
            b1_d: false,
            b2_d: false,
            b3_d: false,
            b4_d: false,
            b5_d: false,
            b6_d: false,
            b7_d: false,
        }
    }

    /// Reads the logic level of every pin of the group and packs them into
    /// one byte, group member 0 into bit 0 and so on.
    pub fn digital_read(&self) -> (r: u8)
        ensures
            r == spec_packed_b(*self),
    {
        let mut result: u8 = 0;
        if self.b0_d {
            result = result + 0x01;
        }
        if self.b1_d {
            result = result + 0x02;
        }
        if self.b2_d {
            result = result + 0x04;
        }
        if self.b3_d {
            result = result + 0x08;
        }
        if self.b4_d {
            result = result + 0x10;
        }
        if self.b5_d {
            result = result + 0x20;
        }
        if self.b6_d {
            result = result + 0x40;
        }
        if self.b7_d {
            result = result + 0x80;
        }
        result
    }

    /// Unpacks the byte in the same fixed bit order and drives each pin:
    /// bit i set drives member i high, else low.
    pub fn digital_write(&mut self, value: u8)
        ensures
            *final(self) == spec_written_b(value),
    {
        self.b0_d = value & 0x01 != 0;
        self.b1_d = value & 0x02 != 0;
        self.b2_d = value & 0x04 != 0;
        self.b3_d = value & 0x08 != 0;
        self.b4_d = value & 0x10 != 0;
        self.b5_d = value & 0x20 != 0;
        self.b6_d = value & 0x40 != 0;
        self.b7_d = value & 0x80 != 0;
    }
}

impl PinDriversAnalogA {
    /// Materializes the analog driver set over the six wired channels; a
    /// fresh set returns conversion result 0 on each.
    pub fn new() -> (d: PinDriversAnalogA)
        ensures
            d == spec_fresh_analog_a(),
    {
        PinDriversAnalogA { a0_ad: 0, a1_ad: 0, a2_ad: 0, a3_ad: 0, a4_ad: 0, a5_ad: 0 }
    }

    /// Routes an analog read to the converter channel of the port; the two
    /// unwired channels return a constant 0 rather than failing.
    pub fn analog_read(&self, port: AnalogReadPort) -> (r: u16)
        ensures
            r == spec_analog_read_a(*self, port),
            spec_analog_channel(port) >= 6 ==> r == 0,
    {
        match port {
            AnalogReadPort::Port1 => self.a0_ad,
            AnalogReadPort::Port2 => self.a1_ad,
            AnalogReadPort::Port3 => self.a2_ad,
            AnalogReadPort::Port4 => self.a3_ad,
            AnalogReadPort::Port5 => self.a4_ad,
            AnalogReadPort::Port6 => self.a5_ad,
            AnalogReadPort::Port7 => 0,
            AnalogReadPort::Port8 => 0,
        }
    }

    /// Sets the conversion result a wired channel returns; in a bench test
    /// this stands for the voltage applied to the channel's pin.
    pub fn set_sample(&mut self, channel: u8, value: u16)
        requires
            channel < 6,
        ensures
            *final(self) == spec_sample_set(*old(self), channel, value),
    {
        if channel == 0 {
            self.a0_ad = value;
        } else if channel == 1 {
            self.a1_ad = value;
        } else if channel == 2 {
            self.a2_ad = value;
        } else if channel == 3 {
            self.a3_ad = value;
        } else if channel == 4 {
            self.a4_ad = value;
        } else {
            self.a5_ad = value;
        }
    }
}

/// The analog driver set with one wired channel's conversion result
/// replaced.
pub open spec fn spec_sample_set(d: PinDriversAnalogA, channel: u8, value: u16) -> PinDriversAnalogA {
    if channel == 0 {
        PinDriversAnalogA { a0_ad: value, ..d }
    } else if channel == 1 {
        PinDriversAnalogA { a1_ad: value, ..d }
    } else if channel == 2 {
        PinDriversAnalogA { a2_ad: value, ..d }
    } else if channel == 3 {
        PinDriversAnalogA { a3_ad: value, ..d }
    } else if channel == 4 {
        PinDriversAnalogA { a4_ad: value, ..d }
    } else if channel == 5 {
        PinDriversAnalogA { a5_ad: value, ..d }
    } else {
        d
    }
}

/// The whole pin-resource state of the board: both sides, plus the
/// setup and teardown counts of the modeled driver sets. The counts stand
/// for the constructor and destructor calls a bench test observes on the
/// drivers; the board's behavior does not depend on them.
#[derive(Debug, Clone, PartialEq, Eq, Structural)]
pub struct Device {
    pub a_side: ASidePinDrivers,
    pub b_side: BSidePinDrivers,
    pub a_digital_inits: u64,
    pub a_analog_inits: u64,
    pub a_teardowns: u64,
    pub b_digital_inits: u64,
    pub b_teardowns: u64,
}

/// Headroom for one more setup or teardown count on each side.
pub open spec fn spec_counters_ok(d: Device) -> bool {
    &&& d.a_digital_inits < u64::MAX
    &&& d.a_analog_inits < u64::MAX
    &&& d.a_teardowns < u64::MAX
    &&& d.b_digital_inits < u64::MAX
    &&& d.b_teardowns < u64::MAX
}

/// Side A after digital mode is ensured: an existing digital driver set is
/// reused untouched; any other state is torn down first and a fresh set
/// materialized.
pub open spec fn spec_ensure_digital_a(d: Device) -> Device {
    match d.a_side {
        ASidePinDrivers::Digital(_) => d,
        ASidePinDrivers::Unconfigured => Device {
            a_side: ASidePinDrivers::Digital(spec_fresh_digital_a()),
            b_side: d.b_side,
            a_digital_inits: (d.a_digital_inits + 1) as u64,
            a_analog_inits: d.a_analog_inits,
            a_teardowns: d.a_teardowns,
            b_digital_inits: d.b_digital_inits,
            b_teardowns: d.b_teardowns,
        },
        ASidePinDrivers::Analog(_) => Device {
            a_side: ASidePinDrivers::Digital(spec_fresh_digital_a()),
            b_side: d.b_side,
            a_digital_inits: (d.a_digital_inits + 1) as u64,
            a_analog_inits: d.a_analog_inits,
            a_teardowns: (d.a_teardowns + 1) as u64,
            b_digital_inits: d.b_digital_inits,
            b_teardowns: d.b_teardowns,
        },
    }
}

/// Side A after analog mode is ensured, in the same reuse-or-rebuild way.
pub open spec fn spec_ensure_analog_a(d: Device) -> Device {
    match d.a_side {
        ASidePinDrivers::Analog(_) => d,
        ASidePinDrivers::Unconfigured => Device {
            a_side: ASidePinDrivers::Analog(spec_fresh_analog_a()),
            b_side: d.b_side,
            a_digital_inits: d.a_digital_inits,
            a_analog_inits: (d.a_analog_inits + 1) as u64,
            a_teardowns: d.a_teardowns,
            b_digital_inits: d.b_digital_inits,
            b_teardowns: d.b_teardowns,
        },
        ASidePinDrivers::Digital(_) => Device {
            a_side: ASidePinDrivers::Analog(spec_fresh_analog_a()),
            b_side: d.b_side,
            a_digital_inits: d.a_digital_inits,
            a_analog_inits: (d.a_analog_inits + 1) as u64,
            a_teardowns: (d.a_teardowns + 1) as u64,
            b_digital_inits: d.b_digital_inits,
            b_teardowns: d.b_teardowns,
        },
    }
}

/// Side B after digital mode is ensured.
pub open spec fn spec_ensure_digital_b(d: Device) -> Device {
    match d.b_side {
        BSidePinDrivers::Digital(_) => d,
        BSidePinDrivers::Unconfigured => Device {
            a_side: d.a_side,
            b_side: BSidePinDrivers::Digital(spec_fresh_digital_b()),
            a_digital_inits: d.a_digital_inits,
            a_analog_inits: d.a_analog_inits,
            a_teardowns: d.a_teardowns,
            b_digital_inits: (d.b_digital_inits + 1) as u64,
            b_teardowns: d.b_teardowns,
        },
    }
}

/// The side that a digital operation targets, with digital mode ensured.
pub open spec fn spec_ensure_digital(d: Device, port: DigitalPort) -> Device {
    match port {
        DigitalPort::Port1 => spec_ensure_digital_a(d),
        DigitalPort::Port2 => spec_ensure_digital_b(d),
    }
}

/// The state after a digital write: digital mode ensured on the targeted
/// side, then every pin of that side driven per the value's bits.
pub open spec fn spec_digital_write(d: Device, port: DigitalPort, value: u8) -> Device {
    let ensured = spec_ensure_digital(d, port);
    match port {
        DigitalPort::Port1 => Device {
            a_side: ASidePinDrivers::Digital(spec_written_a(value)),
            ..ensured
        },
        DigitalPort::Port2 => Device {
            b_side: BSidePinDrivers::Digital(spec_written_b(value)),
            ..ensured
        },
    }
}

/// The byte a digital read returns: the packed levels of the targeted side
/// once digital mode is ensured (0 from a freshly materialized set).
pub open spec fn spec_digital_read_value(d: Device, port: DigitalPort) -> u8 {
    match port {
        DigitalPort::Port1 => match spec_ensure_digital_a(d).a_side {
            ASidePinDrivers::Digital(drivers) => spec_packed_a(drivers),
            _ => 0,
        },
        DigitalPort::Port2 => match spec_ensure_digital_b(d).b_side {
            BSidePinDrivers::Digital(drivers) => spec_packed_b(drivers),
            _ => 0,
        },
    }
}

/// The value an analog read returns: analog mode ensured on Side A, then
/// the port routed per [`spec_analog_read_a`].
pub open spec fn spec_analog_read_value(d: Device, port: AnalogReadPort) -> u16 {
    match spec_ensure_analog_a(d).a_side {
        ASidePinDrivers::Analog(drivers) => spec_analog_read_a(drivers, port),
        _ => 0,
    }
}

impl Device {
    /// The board state at startup: neither side has a materialized driver
    /// set yet, and no setup or teardown has been counted.
    pub fn new() -> (d: Device)
        ensures
            d == (Device {
                a_side: ASidePinDrivers::Unconfigured,
                b_side: BSidePinDrivers::Unconfigured,
                a_digital_inits: 0u64,
                a_analog_inits: 0u64,
                a_teardowns: 0u64,
                b_digital_inits: 0u64,
                b_teardowns: 0u64,
            }),
    {
        Device {
            a_side: ASidePinDrivers::Unconfigured,
            b_side: BSidePinDrivers::Unconfigured,
            a_digital_inits: 0,
            a_analog_inits: 0,
            a_teardowns: 0,
            b_digital_inits: 0,
            b_teardowns: 0,
        }
    }

    /// Ensures Side A is in digital mode: reuses an existing digital driver
    /// set, else tears down whatever held the pins and materializes a fresh
    /// one.
    pub fn ensure_digital_a(&mut self)
        requires
            spec_counters_ok(*old(self)),
        ensures
            *final(self) == spec_ensure_digital_a(*old(self)),
    {
        match &self.a_side {
            ASidePinDrivers::Digital(_) => {},
            ASidePinDrivers::Unconfigured => {
                self.a_side = ASidePinDrivers::Digital(PinDriversDigitalA::new());
                self.a_digital_inits = self.a_digital_inits + 1;
            },
            ASidePinDrivers::Analog(_) => {
                self.a_side = ASidePinDrivers::Digital(PinDriversDigitalA::new());
                self.a_digital_inits = self.a_digital_inits + 1;
                self.a_teardowns = self.a_teardowns + 1;
            },
        }
    }

    /// Ensures Side A is in analog mode, in the same reuse-or-rebuild way.
    /// Side B has no analog capability, so there is no counterpart for it.
    pub fn ensure_analog_a(&mut self)
        requires
            spec_counters_ok(*old(self)),
        ensures
            *final(self) == spec_ensure_analog_a(*old(self)),
    {
        match &self.a_side {
            ASidePinDrivers::Analog(_) => {},
            ASidePinDrivers::Unconfigured => {
                self.a_side = ASidePinDrivers::Analog(PinDriversAnalogA::new());
                self.a_analog_inits = self.a_analog_inits + 1;
            },
            ASidePinDrivers::Digital(_) => {
                self.a_side = ASidePinDrivers::Analog(PinDriversAnalogA::new());
                self.a_analog_inits = self.a_analog_inits + 1;
                self.a_teardowns = self.a_teardowns + 1;
            },
        }
    }

    /// Ensures Side B is in digital mode.
    pub fn ensure_digital_b(&mut self)
        requires
            spec_counters_ok(*old(self)),
        ensures
            *final(self) == spec_ensure_digital_b(*old(self)),
    {
        match &self.b_side {
            BSidePinDrivers::Digital(_) => {},
            BSidePinDrivers::Unconfigured => {
                self.b_side = BSidePinDrivers::Digital(PinDriversDigitalB::new());
                self.b_digital_inits = self.b_digital_inits + 1;
            },
        }
    }

    /// Drives the pins of a side per the value's bits, materializing the
    /// side's digital driver set first if it does not hold one.
    pub fn digital_write(&mut self, port: DigitalPort, value: u8)
        requires
            spec_counters_ok(*old(self)),
        ensures
            *final(self) == spec_digital_write(*old(self), port, value),
    {
        match port {
            DigitalPort::Port1 => {
                self.ensure_digital_a();
                match &mut self.a_side {
                    ASidePinDrivers::Digital(drivers) => drivers.digital_write(value),
                    _ => {
                        // ensure_digital left the side in digital mode.
                        proof {
                            assert(false);
                        }
                    },
                }
            },
            DigitalPort::Port2 => {
                self.ensure_digital_b();
                match &mut self.b_side {
                    BSidePinDrivers::Digital(drivers) => drivers.digital_write(value),
                    _ => {
                        // ensure_digital left the side in digital mode.
                        proof {
                            assert(false);
                        }
                    },
                }
            },
        }
    }

    /// Reads the packed pin levels of a side, materializing the side's
    /// digital driver set first if it does not hold one.
    pub fn digital_read(&mut self, port: DigitalPort) -> (r: u8)
        requires
            spec_counters_ok(*old(self)),
        ensures
            *final(self) == spec_ensure_digital(*old(self), port),
            r == spec_digital_read_value(*old(self), port),
    {
        match port {
            DigitalPort::Port1 => {
                self.ensure_digital_a();
                match &self.a_side {
                    ASidePinDrivers::Digital(drivers) => drivers.digital_read(),
                    _ => {
                        // ensure_digital left the side in digital mode.
                        proof {
                            assert(false);
                        }
                        0
                    },
                }
            },
            DigitalPort::Port2 => {
                self.ensure_digital_b();
                match &self.b_side {
                    BSidePinDrivers::Digital(drivers) => drivers.digital_read(),
                    _ => {
                        // ensure_digital left the side in digital mode.
                        proof {
                            assert(false);
                        }
                        0
                    },
                }
            },
        }
    }

    /// Reads a logical analog channel, materializing Side A's analog driver
    /// set first if it does not hold one. The two unwired channels return 0
    /// whatever the prior state.
    pub fn analog_read(&mut self, port: AnalogReadPort) -> (r: u16)
        requires
            spec_counters_ok(*old(self)),
        ensures
            *final(self) == spec_ensure_analog_a(*old(self)),
            r == spec_analog_read_value(*old(self), port),
            spec_analog_channel(port) >= 6 ==> r == 0,
    {
        self.ensure_analog_a();
        match &self.a_side {
            ASidePinDrivers::Analog(drivers) => drivers.analog_read(port),
            _ => {
                // ensure_analog_a left Side A in analog mode.
                proof {
                    assert(false);
                }
                0
            },
        }
    }
}

/// After a write of `value` to Side A, reading the group back recovers the
/// low 7 bits of the written pattern exactly (loopback, no external
/// interference).
pub proof fn lemma_write_then_read_a(value: u8)
    ensures
        spec_packed_a(spec_written_a(value)) == value & 0x7F,
{
    assert(((if value & 0x01 != 0 { 0x01int } else { 0int }) + (if value & 0x02 != 0 {
        0x02int
    } else {
        0int
    }) + (if value & 0x04 != 0 { 0x04int } else { 0int }) + (if value & 0x08 != 0 {
        0x08int
    } else {
        0int
    }) + (if value & 0x10 != 0 { 0x10int } else { 0int }) + (if value & 0x20 != 0 {
        0x20int
    } else {
        0int
    }) + (if value & 0x40 != 0 { 0x40int } else { 0int })) == value & 0x7F) by (bit_vector);
}

/// After a write of `value` to Side B, reading the group back recovers all
/// 8 bits of the written pattern exactly.
pub proof fn lemma_write_then_read_b(value: u8)
    ensures
        spec_packed_b(spec_written_b(value)) == value,
{
    assert(((if value & 0x01 != 0 { 0x01int } else { 0int }) + (if value & 0x02 != 0 {
        0x02int
    } else {
        0int
    }) + (if value & 0x04 != 0 { 0x04int } else { 0int }) + (if value & 0x08 != 0 {
        0x08int
    } else {
        0int
    }) + (if value & 0x10 != 0 { 0x10int } else { 0int }) + (if value & 0x20 != 0 {
        0x20int
    } else {
        0int
    }) + (if value & 0x40 != 0 { 0x40int } else { 0int }) + (if value & 0x80 != 0 {
        0x80int
    } else {
        0int
    })) == value) by (bit_vector);
}

/// Loopback law of the resource manager: writing a byte to a side and then
/// reading that side returns the written pattern in the side's significant
/// bits — the low 7 on Side A (bit 7 is unused there) and all 8 on Side B —
/// whatever mode the side was in before, and the read changes nothing.
pub proof fn lemma_digital_loopback(d: Device, port: DigitalPort, value: u8)
    ensures
        port == DigitalPort::Port1 ==> spec_digital_read_value(
            spec_digital_write(d, port, value),
            port,
        ) == value & 0x7F,
        port == DigitalPort::Port2 ==> spec_digital_read_value(
            spec_digital_write(d, port, value),
            port,
        ) == value,
        spec_ensure_digital(spec_digital_write(d, port, value), port) == spec_digital_write(
            d,
            port,
            value,
        ),
{
    lemma_write_then_read_a(value);
    lemma_write_then_read_b(value);
}

/// Mode-exclusivity law: taking Side A from digital mode to analog mode and
/// back tears the old driver set down and materializes a fresh one on each
/// switch — one teardown and one setup per change, never a reuse. That the
/// two modes are never held at once is structural: a side is one variant of
/// its driver enum, which owns the only driver set.
pub proof fn lemma_mode_switch_reinitializes(d: Device)
    requires
        d.a_side is Digital,
        d.a_digital_inits < u64::MAX,
        d.a_analog_inits < u64::MAX,
        d.a_teardowns < u64::MAX - 1,
    ensures
        spec_ensure_analog_a(d).a_side is Analog,
        spec_ensure_analog_a(d).a_analog_inits == d.a_analog_inits + 1,
        spec_ensure_analog_a(d).a_teardowns == d.a_teardowns + 1,
        spec_ensure_digital_a(spec_ensure_analog_a(d)).a_side is Digital,
        spec_ensure_digital_a(spec_ensure_analog_a(d)).a_digital_inits == d.a_digital_inits + 1,
        spec_ensure_digital_a(spec_ensure_analog_a(d)).a_teardowns == d.a_teardowns + 2,
{
}

} // verus!
