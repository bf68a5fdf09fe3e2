//! The colour animator: walks the hue circle, one step per tick, and turns
//! each hue into a gamma-corrected, brightness-limited colour.
use vstd::prelude::*;
use crate::color::Rgb;
use crate::driver::{PulseChannel, TransmissionError, Ws281X};
use crate::encoder::spec_encode_color;

verus! {

/// Saturation and value of every animated colour.
pub const ANIMATION_SATURATION: u8 = 255;
pub const ANIMATION_VALUE: u8 = 255;

/// Brightness ceiling out of 255 applied after gamma correction.
pub const BRIGHTNESS_CEILING: u8 = 10;

/// Time between two frames.
pub const TICK_INTERVAL_MS: u64 = 20;

/// Number of hue steps in one full cycle.
pub const HUE_STEPS: u64 = 256;

/// Integer HSV to RGB conversion: six sectors of 43 hue steps each.
pub open spec fn spec_hsv2rgb(hue: u8, sat: u8, val: u8) -> Rgb {
    let v = val as int;
    let s = sat as int;
    let f = (hue as int * 2 % 85) * 3;
    let p = v * (255 - s) / 255;
    let q = v * (255 - (s * f) / 255) / 255;
    let t = v * (255 - (s * (255 - f)) / 255) / 255;
    if hue <= 42 {
        Rgb { r: v as u8, g: t as u8, b: p as u8 }
    } else if hue <= 84 {
        Rgb { r: q as u8, g: v as u8, b: p as u8 }
    } else if hue <= 127 {
        Rgb { r: p as u8, g: v as u8, b: t as u8 }
    } else if hue <= 169 {
        Rgb { r: p as u8, g: q as u8, b: v as u8 }
    } else if hue <= 212 {
        Rgb { r: t as u8, g: p as u8, b: v as u8 }
    } else if hue <= 254 {
        Rgb { r: v as u8, g: p as u8, b: q as u8 }
    } else {
        Rgb { r: v as u8, g: t as u8, b: p as u8 }
    }
}

/// The perceptual gamma curve that the LED library applies to one channel.
pub uninterp spec fn gamma_of(x: u8) -> u8;

/// Gamma correction of each channel.
pub open spec fn spec_gamma(c: Rgb) -> Rgb {
    Rgb { r: gamma_of(c.r), g: gamma_of(c.g), b: gamma_of(c.b) }
}

/// One channel scaled to the brightness `level` out of 255.
pub open spec fn spec_dim(x: u8, level: u8) -> u8 {
    (x as int * (level as int + 1) / 256) as u8
}

/// Each channel scaled to the brightness `level` out of 255.
pub open spec fn spec_brightness(c: Rgb, level: u8) -> Rgb {
    Rgb { r: spec_dim(c.r, level), g: spec_dim(c.g, level), b: spec_dim(c.b, level) }
}

/// The colour shown for `hue`.
pub open spec fn spec_frame_color(hue: u8) -> Rgb {
    spec_brightness(
        spec_gamma(spec_hsv2rgb(hue, ANIMATION_SATURATION, ANIMATION_VALUE)),
        BRIGHTNESS_CEILING,
    )
}

/// The hue reached from `start` after `k` steps.
pub open spec fn hue_after(start: u8, k: nat) -> u8 {
    ((start as nat + k) % 256) as u8
}

/// Relies on smart_leds::hsv::hsv2rgb, the integer HSV to RGB conversion.
#[verifier::external_body]
fn hsv_to_rgb(hue: u8, sat: u8, val: u8) -> (c: Rgb)
    ensures
        c == spec_hsv2rgb(hue, sat, val),
{
    let o = smart_leds::hsv::hsv2rgb(smart_leds::hsv::Hsv { hue, sat, val });
    Rgb { r: o.r, g: o.g, b: o.b }
}

/// Relies on smart_leds::gamma, which maps each channel through a fixed
/// 256-entry table.
#[verifier::external_body]
fn gamma_correct(c: Rgb) -> (g: Rgb)
    ensures
        g == (Rgb { r: gamma_of(c.r), g: gamma_of(c.g), b: gamma_of(c.b) }),
{
    let px = smart_leds::RGB8 { r: c.r, g: c.g, b: c.b };
    match smart_leds::gamma(std::iter::once(px)).next() {
        Some(o) => Rgb { r: o.r, g: o.g, b: o.b },
        None => c,
    }
}

/// Relies on smart_leds::brightness, which maps each channel `x` to
/// `x * (level + 1) / 256`.
#[verifier::external_body]
fn limit_brightness(c: Rgb, level: u8) -> (d: Rgb)
    ensures
        d == spec_brightness(c, level),
{
    let px = smart_leds::RGB8 { r: c.r, g: c.g, b: c.b };
    match smart_leds::brightness(std::iter::once(px), level).next() {
        Some(o) => Rgb { r: o.r, g: o.g, b: o.b },
        None => c,
    }
}

/// Caps a gamma-corrected colour at the brightness ceiling.
pub fn dimmed(c: Rgb) -> (d: Rgb)
    ensures
        d == spec_brightness(c, BRIGHTNESS_CEILING),
{
    limit_brightness(c, BRIGHTNESS_CEILING)
}

/// Converts a fully saturated hue to the colour sent to the LED.
pub fn frame_color(hue: u8) -> (c: Rgb)
    ensures
        c == spec_frame_color(hue),
{
    let raw = hsv_to_rgb(hue, ANIMATION_SATURATION, ANIMATION_VALUE);
    dimmed(gamma_correct(raw))
}

/// The animation state: the hue of the next frame.
pub struct Animator {
    hue: u8,
}

impl Animator {
    pub closed spec fn spec_hue(&self) -> u8 {
        self.hue
    }

    /// Starts at hue zero.
    pub fn new() -> (a: Animator)
        ensures
            a.spec_hue() == 0,
    {
        Animator { hue: 0 }
    }

    /// Starts at `hue`.
    pub fn starting_at(hue: u8) -> (a: Animator)
        ensures
            a.spec_hue() == hue,
    {
        Animator { hue }
    }

    /// The hue of the next frame.
    pub fn hue(&self) -> (h: u8)
        ensures
            h == self.spec_hue(),
    {
        self.hue
    }

    /// The colour of the next frame, then one hue step further, wrapping at 256.
    pub fn next_color(&mut self) -> (c: Rgb)
        ensures
            c == spec_frame_color(old(self).spec_hue()),
            final(self).spec_hue() == hue_after(old(self).spec_hue(), 1),
    {
        let c = frame_color(self.hue);
        self.hue = if self.hue == 255 { 0 } else { self.hue + 1 };
        c
    }

    /// Sends the colour of the next frame through `led` and moves one hue step
    /// on. A failed transmission skips the frame: its error is returned and
    /// the hue still moves on.
    pub fn show_next<C: PulseChannel>(&mut self, led: &mut Ws281X<C>) -> (r: Result<(), TransmissionError>)
        ensures
            final(self).spec_hue() == hue_after(old(self).spec_hue(), 1),
            final(led).spec_bits() == old(led).spec_bits(),
            final(led).spec_channel().issued() == old(led).spec_channel().issued().push(
                spec_encode_color(spec_frame_color(old(self).spec_hue()), old(led).spec_bits()),
            ),
            final(led).spec_channel().delivered() == old(led).spec_channel().delivered().push(
                r is Ok,
            ),
    {
        let c = self.next_color();
        led.send_one_color(c)
    }
}

/// Steps compose: `k` steps and then one more are `k + 1` steps.
pub proof fn lemma_hue_steps_compose(start: u8, k: nat)
    ensures
        hue_after(hue_after(start, k), 1) == hue_after(start, k + 1),
{
    assert(((((start as nat + k) % 256) + 1) % 256) == (start as nat + k + 1) % 256) by {
        vstd::arithmetic::div_mod::lemma_add_mod_noop((start as nat + k) as int, 1, 256);
        vstd::arithmetic::div_mod::lemma_mod_twice(1, 256);
    }
}

/// From hue zero, the hue first comes back to zero after exactly 256 ticks,
/// which at one tick per 20 ms is 5120 ms.
pub proof fn lemma_hue_cycle()
    ensures
        hue_after(0, HUE_STEPS as nat) == 0,
        forall|k: nat| 0 < k < HUE_STEPS ==> hue_after(0, k) != 0,
        HUE_STEPS * TICK_INTERVAL_MS == 5120,
{
}

} // verus!
