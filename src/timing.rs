//! Pulse symbols and the two-entry bit timing table.
use vstd::prelude::*;

verus! {

/// Reference durations of the one-wire LED protocol, in nanoseconds.
pub const ZERO_HIGH_NS: u16 = 350;
pub const ZERO_LOW_NS: u16 = 900;
pub const ONE_HIGH_NS: u16 = 600;
pub const ONE_LOW_NS: u16 = 650;

pub const NANOS_PER_SECOND: u64 = 1_000_000_000;

/// One NRZ timing unit: `level1` is held for `length1`, then `level2` for `length2`.
#[derive(Clone, Copy, Debug, PartialEq, Eq, Structural)]
pub struct PulseSymbol {
    pub level1: bool,
    pub length1: u32,
    pub level2: bool,
    pub length2: u32,
}

/// The symbol for a bit value zero and the one for a bit value one.
#[derive(Clone, Copy, Debug, PartialEq, Eq, Structural)]
pub struct BitTimingTable {
    pub zero: PulseSymbol,
    pub one: PulseSymbol,
}

/// `reference_ns * clock_hz / 1e9`, rounded to the nearest integer (halves up).
pub open spec fn spec_ticks(reference_ns: int, clock_hz: int) -> int {
    (reference_ns * clock_hz + 500_000_000) / 1_000_000_000
}

/// A high-then-low symbol with the given lengths.
pub open spec fn high_low(high: int, low: int) -> PulseSymbol {
    PulseSymbol { level1: true, length1: high as u32, level2: false, length2: low as u32 }
}

impl PulseSymbol {
    /// A symbol that holds the line high for `high`, then low for `low`.
    pub fn high_low(high: u32, low: u32) -> (r: PulseSymbol)
        ensures
            r == high_low(high as int, low as int),
    {
        PulseSymbol { level1: true, length1: high, level2: false, length2: low }
    }

    /// The zero-length symbol that ends a transmission.
    pub fn terminator() -> (r: PulseSymbol)
        ensures
            r.length1 == 0 && r.length2 == 0 && !r.level1 && !r.level2,
    {
        PulseSymbol { level1: false, length1: 0, level2: false, length2: 0 }
    }
}

/// Clock ticks of a peripheral running at `clock_hz` that last `reference_ns`
/// nanoseconds, rounded to the nearest tick.
pub fn ticks_for(reference_ns: u16, clock_hz: u32) -> (r: u32)
    ensures
        r as int == spec_ticks(reference_ns as int, clock_hz as int),
{
    assert((reference_ns as int) * (clock_hz as int) <= 65535 * 4294967295) by (nonlinear_arith);
    let product: u64 = (reference_ns as u64) * (clock_hz as u64);
    let t: u64 = (product + 500_000_000) / NANOS_PER_SECOND;
    assert(t <= 281_475) by (nonlinear_arith)
        requires t == (product + 500_000_000) / 1_000_000_000, product <= 65535u64 * 4294967295u64;
    t as u32
}

impl BitTimingTable {
    /// The table a peripheral at `clock_hz` needs.
    pub open spec fn spec_for_clock(clock_hz: int) -> BitTimingTable {
        BitTimingTable {
            zero: high_low(
                spec_ticks(ZERO_HIGH_NS as int, clock_hz),
                spec_ticks(ZERO_LOW_NS as int, clock_hz),
            ),
            one: high_low(
                spec_ticks(ONE_HIGH_NS as int, clock_hz),
                spec_ticks(ONE_LOW_NS as int, clock_hz),
            ),
        }
    }

    /// A one must hold the line high for longer than a zero, and both start high
    /// and end low.
    pub open spec fn wf(&self) -> bool {
        &&& self.one.length1 > self.zero.length1
        &&& self.zero.level1 && !self.zero.level2
        &&& self.one.level1 && !self.one.level2
    }

    /// The symbol that stands for `bit`.
    pub open spec fn spec_symbol(&self, bit: bool) -> PulseSymbol {
        if bit { self.one } else { self.zero }
    }

    /// The table with the reference durations themselves, in nanoseconds.
    pub fn nanoseconds() -> (r: BitTimingTable)
        ensures
            r == (BitTimingTable {
                zero: high_low(ZERO_HIGH_NS as int, ZERO_LOW_NS as int),
                one: high_low(ONE_HIGH_NS as int, ONE_LOW_NS as int),
            }),
            r.wf(),
    {
        BitTimingTable {
            zero: PulseSymbol::high_low(ZERO_HIGH_NS as u32, ZERO_LOW_NS as u32),
            one: PulseSymbol::high_low(ONE_HIGH_NS as u32, ONE_LOW_NS as u32),
        }
    }

    /// The table in ticks of a peripheral clock running at `clock_hz`.
    pub fn for_clock(clock_hz: u32) -> (r: BitTimingTable)
        ensures
            r == Self::spec_for_clock(clock_hz as int),
            clock_hz >= 4_000_000 ==> r.wf(),
    {
        let r = BitTimingTable {
            zero: PulseSymbol::high_low(
                ticks_for(ZERO_HIGH_NS, clock_hz),
                ticks_for(ZERO_LOW_NS, clock_hz),
            ),
            one: PulseSymbol::high_low(
                ticks_for(ONE_HIGH_NS, clock_hz),
                ticks_for(ONE_LOW_NS, clock_hz),
            ),
        };
        proof {
            if clock_hz >= 4_000_000 {
                lemma_ticks_separate(clock_hz as int);
            }
        }
        r
    }

    /// The symbol that stands for `bit`.
    pub fn symbol(&self, bit: bool) -> (r: PulseSymbol)
        ensures
            r == self.spec_symbol(bit),
    {
        if bit { self.one } else { self.zero }
    }
}

/// From 4 MHz on, a one's high time is at least a tick longer than a zero's.
proof fn lemma_ticks_separate(clock_hz: int)
    requires
        clock_hz >= 4_000_000,
    ensures
        spec_ticks(ONE_HIGH_NS as int, clock_hz) > spec_ticks(ZERO_HIGH_NS as int, clock_hz),
{
    let a = 350 * clock_hz + 500_000_000;
    let b = 600 * clock_hz + 500_000_000;
    assert(b >= a + 1_000_000_000) by (nonlinear_arith)
        requires clock_hz >= 4_000_000, a == 350 * clock_hz + 500_000_000, b == 600 * clock_hz + 500_000_000;
    assert(b / 1_000_000_000 >= (a + 1_000_000_000) / 1_000_000_000) by {
        vstd::arithmetic::div_mod::lemma_div_is_ordered(a + 1_000_000_000, b, 1_000_000_000);
    }
    assert((a + 1_000_000_000) / 1_000_000_000 == a / 1_000_000_000 + 1) by {
        vstd::arithmetic::div_mod::lemma_div_plus_one(a, 1_000_000_000);
    }
}

/// A faster clock never needs fewer ticks for the same duration.
pub proof fn lemma_ticks_monotonic(reference_ns: int, clock_hz_a: int, clock_hz_b: int)
    requires
        0 <= reference_ns,
        0 <= clock_hz_a <= clock_hz_b,
    ensures
        spec_ticks(reference_ns, clock_hz_a) <= spec_ticks(reference_ns, clock_hz_b),
{
    assert(reference_ns * clock_hz_a <= reference_ns * clock_hz_b) by (nonlinear_arith)
        requires 0 <= reference_ns, clock_hz_a <= clock_hz_b;
    vstd::arithmetic::div_mod::lemma_div_is_ordered(
        reference_ns * clock_hz_a + 500_000_000,
        reference_ns * clock_hz_b + 500_000_000,
        1_000_000_000,
    );
}

/// Every duration of the table derived for a slower clock is at most the one
/// derived for a faster clock.
pub proof fn lemma_table_monotonic(clock_hz_a: u32, clock_hz_b: u32)
    requires
        clock_hz_a < clock_hz_b,
    ensures
        ({
            let ta = BitTimingTable::spec_for_clock(clock_hz_a as int);
            let tb = BitTimingTable::spec_for_clock(clock_hz_b as int);
            &&& ta.zero.length1 <= tb.zero.length1
            &&& ta.zero.length2 <= tb.zero.length2
            &&& ta.one.length1 <= tb.one.length1
            &&& ta.one.length2 <= tb.one.length2
        }),
{
    lemma_ticks_bounded(ZERO_HIGH_NS as int, clock_hz_a as int);
    lemma_ticks_bounded(ZERO_HIGH_NS as int, clock_hz_b as int);
    lemma_ticks_bounded(ZERO_LOW_NS as int, clock_hz_a as int);
    lemma_ticks_bounded(ZERO_LOW_NS as int, clock_hz_b as int);
    lemma_ticks_bounded(ONE_HIGH_NS as int, clock_hz_a as int);
    lemma_ticks_bounded(ONE_HIGH_NS as int, clock_hz_b as int);
    lemma_ticks_bounded(ONE_LOW_NS as int, clock_hz_a as int);
    lemma_ticks_bounded(ONE_LOW_NS as int, clock_hz_b as int);
    lemma_ticks_monotonic(ZERO_HIGH_NS as int, clock_hz_a as int, clock_hz_b as int);
    lemma_ticks_monotonic(ZERO_LOW_NS as int, clock_hz_a as int, clock_hz_b as int);
    lemma_ticks_monotonic(ONE_HIGH_NS as int, clock_hz_a as int, clock_hz_b as int);
    lemma_ticks_monotonic(ONE_LOW_NS as int, clock_hz_a as int, clock_hz_b as int);
}

/// A tick count of a `u16` duration on a `u32` clock fits in a `u32`.
proof fn lemma_ticks_bounded(reference_ns: int, clock_hz: int)
    requires
        0 <= reference_ns <= 65535,
        0 <= clock_hz <= 4294967295,
    ensures
        0 <= spec_ticks(reference_ns, clock_hz) <= 281_475,
{
    assert(0 <= reference_ns * clock_hz <= 65535 * 4294967295) by (nonlinear_arith)
        requires 0 <= reference_ns <= 65535, 0 <= clock_hz <= 4294967295;
    vstd::arithmetic::div_mod::lemma_div_is_ordered(
        reference_ns * clock_hz + 500_000_000,
        (65535 * 4294967295 + 500_000_000) as int,
        1_000_000_000,
    );
    vstd::arithmetic::div_mod::lemma_div_pos_is_pos(reference_ns * clock_hz + 500_000_000, 1_000_000_000);
}

} // verus!
