use ledstrip::animator::{frame_color, Animator, BRIGHTNESS_CEILING, HUE_STEPS, TICK_INTERVAL_MS};
use ledstrip::color::Rgb;
use ledstrip::driver::{PulseChannel, RecordingChannel, TransmissionError, Ws281X};
use ledstrip::encoder::color_to_pulse_code;
use ledstrip::timing::BitTimingTable;

#[test]
fn driver_derives_table_from_clock() {
    let led = Ws281X::new(RecordingChannel::new(), 80_000_000);
    assert_eq!(led.bits(), BitTimingTable::for_clock(80_000_000));
}

#[test]
fn send_one_color_issues_its_encoding() {
    let mut led = Ws281X::new(RecordingChannel::new(), 80_000_000);
    let c = Rgb::new(12, 200, 7);
    assert_eq!(led.send_one_color(c), Ok(()));
    let ch = led.channel();
    assert_eq!(ch.attempts(), 1);
    assert_eq!(*ch.transmission(0), color_to_pulse_code(c, &led.bits()));
}

#[test]
fn send_colors_sends_all_in_order() {
    let mut led = Ws281X::new(RecordingChannel::new(), 80_000_000);
    let colors = [Rgb::new(1, 0, 0), Rgb::new(0, 1, 0), Rgb::new(0, 0, 1)];
    assert_eq!(led.send_colors(&colors), Ok(()));
    let t = led.bits();
    let ch = led.into_channel();
    assert_eq!(ch.attempts(), 3);
    for (k, c) in colors.iter().enumerate() {
        assert_eq!(*ch.transmission(k), color_to_pulse_code(*c, &t));
    }
}

#[test]
fn send_colors_stops_at_first_failure() {
    let mut led = Ws281X::new(RecordingChannel::failing_at(1), 80_000_000);
    let colors = [Rgb::new(1, 0, 0), Rgb::new(0, 1, 0), Rgb::new(0, 0, 1)];
    assert_eq!(led.send_colors(&colors), Err(TransmissionError::ChannelBusy));
    assert_eq!(led.channel().attempts(), 2);
}

#[test]
fn send_colors_of_nothing_succeeds() {
    let mut led = Ws281X::new(RecordingChannel::failing_at(0), 80_000_000);
    assert_eq!(led.send_colors(&[]), Ok(()));
    assert_eq!(led.channel().attempts(), 0);
}

#[test]
fn recording_channel_reports_scripted_failure() {
    let mut ch = RecordingChannel::failing_at(0);
    assert_eq!(ch.send_pulse_sequence(&[]), Err(TransmissionError::ChannelBusy));
    assert_eq!(ch.send_pulse_sequence(&[]), Ok(()));
}

#[test]
fn frame_colors_are_gamma_corrected_and_dimmed() {
    // Hue 0 is pure red: 255 through the gamma curve stays 255, and
    // 255 * 11 / 256 is 10.
    assert_eq!(frame_color(0), Rgb::new(10, 0, 0));
    assert_eq!(frame_color(85), Rgb::new(0, 10, 0));
    assert_eq!(frame_color(170), Rgb::new(0, 0, 10));
    // Hue 21 is orange: green 126 goes through the gamma curve to 35, then
    // 35 * 11 / 256 is 1.
    assert_eq!(frame_color(21), Rgb::new(10, 1, 0));
    assert_eq!(BRIGHTNESS_CEILING, 10);
}

#[test]
fn animator_steps_and_wraps() {
    let mut a = Animator::starting_at(254);
    assert_eq!(a.next_color(), frame_color(254));
    assert_eq!(a.hue(), 255);
    a.next_color();
    assert_eq!(a.hue(), 0);
}

#[test]
fn hue_cycle_takes_256_ticks() {
    let mut a = Animator::new();
    let mut ticks: u64 = 0;
    loop {
        a.next_color();
        ticks += 1;
        if a.hue() == 0 {
            break;
        }
    }
    assert_eq!(ticks, 256);
    assert_eq!(ticks, HUE_STEPS);
    assert_eq!(ticks * TICK_INTERVAL_MS, 5120);
}

#[test]
fn show_next_sends_frame_and_skips_on_failure() {
    let mut led = Ws281X::new(RecordingChannel::failing_at(0), 80_000_000);
    let mut a = Animator::new();
    assert_eq!(a.show_next(&mut led), Err(TransmissionError::ChannelBusy));
    assert_eq!(a.hue(), 1);
    assert_eq!(a.show_next(&mut led), Ok(()));
    assert_eq!(a.hue(), 2);
    assert_eq!(*led.channel().transmission(1), color_to_pulse_code(frame_color(1), &led.bits()));
}
