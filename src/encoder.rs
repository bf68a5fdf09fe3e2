//! The pulse-code encoder: one colour word to 24 pulse symbols.
//!
//! Bits are walked from the most significant to the least significant, so the
//! first symbol carries bit 23 of the word, which is the top bit of the green
//! channel (see `spec_wire_word`).
use vstd::prelude::*;
use crate::color::{spec_wire_word, Rgb, COLOR_WORD_MAX};
use crate::timing::{BitTimingTable, PulseSymbol};

verus! {

/// Number of symbols that encode one colour.
pub const SYMBOLS_PER_COLOR: usize = 24;

/// Bit `k` of `word`.
pub open spec fn word_bit(word: u32, k: u32) -> bool {
    ((word >> k) & 1u32) == 1u32
}

/// The symbol sequence of `word`: position `i` carries bit `23 - i`.
pub open spec fn spec_encode(word: u32, table: BitTimingTable) -> Seq<PulseSymbol> {
    Seq::new(24, |i: int| table.spec_symbol(word_bit(word, (23 - i) as u32)))
}

/// The symbol sequence of a colour.
pub open spec fn spec_encode_color(c: Rgb, table: BitTimingTable) -> Seq<PulseSymbol> {
    spec_encode(spec_wire_word(c) as u32, table)
}

/// Renders a 24-bit colour word as 24 symbols, most significant bit first.
pub fn encode(word: u32, table: &BitTimingTable) -> (pulses: Vec<PulseSymbol>)
    requires
        word <= COLOR_WORD_MAX,
    ensures
        pulses@ == spec_encode(word, *table),
{
    let mut pulses: Vec<PulseSymbol> = Vec::with_capacity(SYMBOLS_PER_COLOR);
    let mut i: usize = 0;
    while i < SYMBOLS_PER_COLOR
        invariant
            i <= 24,
            pulses@.len() == i,
            forall|j: int| 0 <= j < i ==> pulses@[j] == spec_encode(word, *table)[j],
        decreases 24 - i,
    {
        let shift: u32 = (23 - i) as u32;
        let bit = ((word >> shift) & 1u32) == 1u32;
        pulses.push(table.symbol(bit));
        i = i + 1;
    }
    assert(pulses@ =~= spec_encode(word, *table));
    pulses
}

/// Renders a colour as 24 symbols, green first, each channel most significant
/// bit first.
pub fn color_to_pulse_code(c: Rgb, table: &BitTimingTable) -> (pulses: Vec<PulseSymbol>)
    ensures
        pulses@ == spec_encode_color(c, *table),
{
    encode(c.wire_word(), table)
}

/// Every colour word encodes to exactly 24 symbols, each of them one of the
/// table's two symbols.
pub proof fn lemma_encode_shape(word: u32, table: BitTimingTable)
    requires
        word <= COLOR_WORD_MAX,
    ensures
        spec_encode(word, table).len() == 24,
        forall|i: int|
            0 <= i < 24 ==> spec_encode(word, table)[i] == table.zero || spec_encode(word, table)[i]
                == table.one,
{
}

/// All-zero bits give 24 zero symbols and all-one bits give 24 one symbols.
pub proof fn lemma_encode_extremes(table: BitTimingTable)
    ensures
        spec_encode(0, table) == Seq::new(24, |i: int| table.zero),
        spec_encode(0xFF_FFFF, table) == Seq::new(24, |i: int| table.one),
{
    assert forall|k: u32| k < 24 implies !word_bit(0, k) && word_bit(0xFF_FFFF, k) by {
        assert(((0u32 >> k) & 1u32) == 0u32 && ((0xFF_FFFFu32 >> k) & 1u32) == 1u32) by (bit_vector)
            requires k < 24;
    }
    assert(spec_encode(0, table) =~= Seq::new(24, |i: int| table.zero));
    assert(spec_encode(0xFF_FFFF, table) =~= Seq::new(24, |i: int| table.one));
}

/// The word with only its top bit set gives a one symbol first and zero
/// symbols everywhere else: bits leave most significant first.
pub proof fn lemma_encode_top_bit(table: BitTimingTable)
    ensures
        spec_encode(0x80_0000, table) == Seq::new(
            24,
            |i: int|
                if i == 0 {
                    table.one
                } else {
                    table.zero
                },
        ),
{
    assert forall|k: u32| k < 24 implies word_bit(0x80_0000, k) == (k == 23) by {
        assert((((0x80_0000u32 >> k) & 1u32) == 1u32) == (k == 23)) by (bit_vector)
            requires k < 24;
    }
    assert(spec_encode(0x80_0000, table) =~= Seq::new(
        24,
        |i: int|
            if i == 0 {
                table.one
            } else {
                table.zero
            },
    ));
}

/// A colour whose green channel has only its top bit set is the word with
/// only its top bit set: green leads on the wire.
pub proof fn lemma_green_leads(table: BitTimingTable)
    ensures
        spec_encode_color(Rgb { r: 0, g: 0x80, b: 0 }, table) == spec_encode(0x80_0000, table),
{
}

} // verus!
