use ledstrip::color::Rgb;
use ledstrip::encoder::{color_to_pulse_code, encode};
use ledstrip::timing::{ticks_for, BitTimingTable, PulseSymbol};

fn table() -> BitTimingTable {
    BitTimingTable::for_clock(80_000_000)
}

#[test]
fn ticks_round_to_nearest() {
    assert_eq!(ticks_for(350, 80_000_000), 28);
    assert_eq!(ticks_for(900, 80_000_000), 72);
    assert_eq!(ticks_for(600, 80_000_000), 48);
    assert_eq!(ticks_for(650, 80_000_000), 52);
    // 350 ns at 10 MHz is 3.5 ticks: halves round up.
    assert_eq!(ticks_for(350, 10_000_000), 4);
    assert_eq!(ticks_for(0, 80_000_000), 0);
    assert_eq!(ticks_for(65535, u32::MAX), 281_471);
}

#[test]
fn table_for_80_mhz_clock() {
    let t = table();
    assert_eq!(t.zero, PulseSymbol::high_low(28, 72));
    assert_eq!(t.one, PulseSymbol::high_low(48, 52));
    assert!(t.zero.level1 && !t.zero.level2);
    assert!(t.one.length1 > t.zero.length1);
}

#[test]
fn nanosecond_table_holds_reference_durations() {
    let t = BitTimingTable::nanoseconds();
    assert_eq!(t.zero, PulseSymbol::high_low(350, 900));
    assert_eq!(t.one, PulseSymbol::high_low(600, 650));
}

#[test]
fn tick_counts_grow_with_the_clock() {
    let clocks = [1_000_000u32, 4_000_000, 10_000_000, 40_000_000, 80_000_000, 160_000_000];
    for w in clocks.windows(2) {
        let a = BitTimingTable::for_clock(w[0]);
        let b = BitTimingTable::for_clock(w[1]);
        assert!(a.zero.length1 <= b.zero.length1);
        assert!(a.zero.length2 <= b.zero.length2);
        assert!(a.one.length1 <= b.one.length1);
        assert!(a.one.length2 <= b.one.length2);
    }
}

#[test]
fn every_word_gives_24_table_symbols() {
    let t = table();
    for word in [0u32, 1, 0x00A5_5A, 0x12_3456, 0xFF_FFFF, 0x80_0001] {
        let p = encode(word, &t);
        assert_eq!(p.len(), 24);
        assert!(p.iter().all(|s| *s == t.zero || *s == t.one));
    }
}

#[test]
fn black_and_white_are_uniform() {
    let t = table();
    assert_eq!(encode(0x00_0000, &t), vec![t.zero; 24]);
    assert_eq!(encode(0xFF_FFFF, &t), vec![t.one; 24]);
}

#[test]
fn top_bit_goes_first() {
    let t = table();
    let p = encode(0x80_0000, &t);
    assert_eq!(p[0], t.one);
    assert!(p[1..].iter().all(|s| *s == t.zero));
    let q = encode(0x00_0001, &t);
    assert_eq!(q[23], t.one);
    assert!(q[..23].iter().all(|s| *s == t.zero));
}

#[test]
fn green_channel_leads_on_the_wire() {
    let t = table();
    assert_eq!(Rgb::new(1, 2, 3).wire_word(), 0x02_0103);
    let p = color_to_pulse_code(Rgb::new(0, 0x80, 0), &t);
    assert_eq!(p[0], t.one);
    assert!(p[1..].iter().all(|s| *s == t.zero));
    let red = color_to_pulse_code(Rgb::new(0x80, 0, 0), &t);
    assert_eq!(red[8], t.one);
    assert_eq!(red.iter().filter(|s| **s == t.one).count(), 1);
    let blue = color_to_pulse_code(Rgb::new(0, 0, 0x01), &t);
    assert_eq!(blue[23], t.one);
    assert_eq!(blue.iter().filter(|s| **s == t.one).count(), 1);
}

#[test]
fn terminator_has_zero_length() {
    let s = PulseSymbol::terminator();
    assert_eq!(s.length1, 0);
    assert_eq!(s.length2, 0);
}
