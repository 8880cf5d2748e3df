use trumpet_synth::commands::{Command, CommandMessage};
use trumpet_synth::fixed_point::{I1F15, U12F4, U4F4};
use trumpet_synth::render::{apply_word, fill_buffer, frame_word, DeadlineMonitor};
use trumpet_synth::synth::{create, LowPassFilter, SawtoothSynth, TrumpetSynth, TrumpetSynthCommand};

#[test]
fn new_synth_is_silent() {
    let mut synth = create();
    assert_eq!(synth.address(), 0);
    for _ in 0..100 {
        assert_eq!(synth.next().bits, 0);
    }
}

#[test]
fn sawtooth_ramps_and_wraps() {
    let mut saw = SawtoothSynth::new();
    // 3000 Hz: the phase advances by 3000 * 2^32 / 48000 = 2^28 per sample.
    saw.freq(U12F4 { bits: 3000 * 16 });
    saw.attack(U4F4 { bits: 16 });
    let samples: Vec<i16> = (0..17).map(|_| saw.next().bits).collect();
    assert_eq!(samples[0], -32768);
    assert_eq!(samples[1], -32768 + 4096);
    assert_eq!(samples[8], 0);
    assert_eq!(samples[15], 28672);
    assert_eq!(samples[16], -32768);
}

#[test]
fn sawtooth_volume_scales_and_clips() {
    let mut saw = SawtoothSynth::new();
    saw.freq(U12F4 { bits: 3000 * 16 });
    saw.attack(U4F4 { bits: 8 });
    assert_eq!(saw.next().bits, -16384);
    let mut loud = SawtoothSynth::new();
    loud.attack(U4F4 { bits: 32 });
    assert_eq!(loud.next().bits, -32768);
}

#[test]
fn low_pass_filter_moves_toward_input() {
    let mut lpf = LowPassFilter::new(I1F15 { bits: 16384 });
    assert_eq!(lpf.next(I1F15 { bits: 1000 }).bits, 500);
    assert_eq!(lpf.next(I1F15 { bits: 1000 }).bits, 750);
    assert_eq!(lpf.next(I1F15 { bits: -1000 }).bits, -125);
    // Rounding down on a negative step.
    let mut lpf = LowPassFilter::new(I1F15 { bits: 1 });
    assert_eq!(lpf.next(I1F15 { bits: -1 }).bits, -1);
}

#[test]
fn low_pass_filter_extremes_stay_in_range() {
    let mut lpf = LowPassFilter::new(I1F15 { bits: 32767 });
    assert_eq!(lpf.next(I1F15 { bits: 32767 }).bits, 32766);
    assert_eq!(lpf.next(I1F15 { bits: -32768 }).bits, -32767);
}

#[test]
fn frequency_command_drives_the_voice() {
    let mut synth = create();
    synth.run_command(Command {
        address: 0,
        message: CommandMessage::Frequency(U12F4 { bits: 3000 * 16 }, U4F4 { bits: 16 }),
    });
    let first = synth.next().bits;
    // Filtered first sample: 0 + 328 * (-32768 - 0) / 32768 = -328.
    assert_eq!(first, -328);
    let second = synth.next().bits;
    assert!(second < first);
}

#[test]
fn frequency_commands_retune_whatever_their_address() {
    let mut synth = create();
    synth.run_command(Command {
        address: 1,
        message: CommandMessage::Frequency(U12F4 { bits: 3000 * 16 }, U4F4 { bits: 16 }),
    });
    assert_eq!(synth.next().bits, -328);
    let other = TrumpetSynth::make(1);
    assert_eq!(other.address(), 1);
}

#[test]
fn reconfigure_sets_filter_alpha() {
    let mut synth = create();
    let change = TrumpetSynthCommand::FilterAlpha(I1F15 { bits: 16384 });
    synth.run_command(Command {
        address: 0,
        message: CommandMessage::Reconfigure(change.serialize()),
    });
    synth.run_command(Command {
        address: 0,
        message: CommandMessage::Frequency(U12F4 { bits: 3000 * 16 }, U4F4 { bits: 16 }),
    });
    assert_eq!(synth.next().bits, -16384);
}

#[test]
fn default_filter_alpha_matches_decimal() {
    assert_eq!(
        trumpet_synth::synth::DEFAULT_FILTER_ALPHA_BITS,
        fixed::types::I1F15::strict_from_str("0.01").to_bits()
    );
}

#[test]
fn frame_words_match_shifted_sign_extension() {
    for sample in [0i16, 1, 15, 16, -1, -16, -17, 32767, -32768, 1234, -1234] {
        let expected = ((sample as u32) >> 4) << 16;
        assert_eq!(frame_word(I1F15 { bits: sample }), expected, "sample {}", sample);
    }
}

#[test]
fn fill_buffer_duplicates_each_sample() {
    let mut synth = create();
    synth.run_command(Command {
        address: 0,
        message: CommandMessage::Frequency(U12F4 { bits: 440 * 16 }, U4F4 { bits: 16 }),
    });
    let mut reference = synth;
    let mut buf = [0u32; 8];
    fill_buffer(&mut synth, &mut buf);
    for frame in 0..4 {
        let expected = frame_word(reference.next());
        assert_eq!(buf[2 * frame], expected);
        assert_eq!(buf[2 * frame + 1], expected);
    }
    assert_eq!(synth.next(), reference.next());
}

#[test]
fn apply_word_drops_unknown_words() {
    let mut synth = create();
    apply_word(&mut synth, Some(0xC000_0000));
    apply_word(&mut synth, None);
    assert_eq!(synth.next().bits, 0);
    let word = Command {
        address: 0,
        message: CommandMessage::Frequency(U12F4 { bits: 3000 * 16 }, U4F4 { bits: 16 }),
    }
    .serialize();
    apply_word(&mut synth, Some(word));
    assert_eq!(synth.next().bits, -328);
}

#[test]
fn deadline_monitor_warns_once() {
    let mut monitor = DeadlineMonitor::new();
    assert!(!monitor.check(false));
    assert!(monitor.check(true));
    assert!(!monitor.check(true));
    assert!(!monitor.check(false));
}
