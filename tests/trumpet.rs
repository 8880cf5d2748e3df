use fixed::traits::LossyFrom;
use fixed::types::{U0F16 as F0, U12F4 as F12, U24F8 as F24};
use trumpet_synth::commands::{Command, CommandMessage};
use trumpet_synth::fixed_point::{U0F16, U12F4, U24F8, U4F4};
use trumpet_synth::interface::TrumpetEvent;
use trumpet_synth::trumpet::{
    bflat_trumpet, BlowStrength, Embouchure, Trumpet, TrumpetDefinition, TrumpetState, Valve, ValveState, Valves,
};

fn embouchure(x: f64) -> Embouchure {
    U0F16 {
        bits: fixed::types::U0F16::from_num(x).to_bits(),
    }
}

fn blowstrength(x: f64) -> BlowStrength {
    U0F16 {
        bits: fixed::types::U0F16::from_num(x).to_bits(),
    }
}

#[test]
fn test_trumpet_frequencies() {
    let mut trumpet = Trumpet::new(bflat_trumpet());

    let commands = trumpet.update(&[
        TrumpetEvent::BlowDown,
        TrumpetEvent::BlowStrengthChange(blowstrength(0.8)),
        TrumpetEvent::EmbouchureChange(embouchure(0.23)),
    ]);

    println!(
        "{:?} {:?} {:?} {:?}",
        trumpet.state.overtone(),
        trumpet.state.tube_length(&bflat_trumpet()),
        trumpet.state.volume(),
        trumpet.frequency(),
    );

    // 0.23 lies between the table entries 0.21 (index 3) and 0.3 (index 4).
    assert_eq!(trumpet.state.overtone(), Some(3));
    assert_eq!(trumpet.state.tube_length(&bflat_trumpet()).bits, 1470 * 16);
    assert_eq!(trumpet.state.volume().bits, 15);
    assert_eq!(trumpet.state.bend().bits, 254);
    let frequency = trumpet.frequency().unwrap();
    assert_eq!(frequency.bits, 237065);
    assert_eq!(commands.len(), 1);
    assert_eq!(
        commands[0],
        Command {
            address: 0,
            message: CommandMessage::Frequency(U12F4 { bits: 14816 }, U4F4 { bits: 15 }),
        }
    );
}

#[test]
fn scenario_frequency_matches_fixed_point_formula() {
    let mut trumpet = Trumpet::new(bflat_trumpet());
    trumpet.update(&[
        TrumpetEvent::BlowDown,
        TrumpetEvent::BlowStrengthChange(blowstrength(0.8)),
        TrumpetEvent::EmbouchureChange(embouchure(0.23)),
    ]);

    // The same computation with the fixed crate's own arithmetic.
    let e = F0::from_num(0.23);
    let lung = F0::from_num(0.8);
    let lo = F0::strict_from_str("0.21");
    let hi = F0::strict_from_str("0.3");
    let half = (hi - lo) >> 1;
    let amount: F0 = half - e.abs_diff(lo);
    let capacity = F0::strict_from_str(".9") * lung;
    let bendability = F24::strict_from_str("0.5");
    let bend = F24::ONE
        - (F24::lossy_from(amount) * F24::lossy_from(capacity) * bendability);
    let fundamental = F24::strict_from_str("343000") / F24::from(F12::strict_from_str("1470"));
    let expected = fundamental * F24::from_num(4) * bend;

    assert_eq!(trumpet.state.bend().bits, bend.to_bits());
    assert_eq!(trumpet.frequency().unwrap().bits, expected.to_bits());
}

#[test]
fn plot_embouchure_to_frequency() {
    let mut trumpet = Trumpet::new(bflat_trumpet());
    trumpet.update(&[
        TrumpetEvent::BlowDown,
        TrumpetEvent::BlowStrengthChange(blowstrength(0.9)),
    ]);

    let mut result: Vec<(f64, f64)> = Vec::new();
    for i in (0..u16::MAX).step_by(1 << 4) {
        let embouchure = U0F16 { bits: i };

        trumpet.update(&[TrumpetEvent::EmbouchureChange(embouchure)]);

        let frequency = trumpet
            .frequency()
            .map(|n| n.bits as f64 / 256.0)
            .unwrap_or(0.);
        let embouchure = i as f64 / 65536.0;
        result.push((embouchure, frequency))
    }

    assert_eq!(result.len(), 4096);
    // Slack lips play nothing; every tighter embouchure plays a note below
    // the 4096 Hz that a command can carry.
    assert_eq!(result[0].1, 0.0);
    for &(_, frequency) in result.iter().skip(1) {
        assert!(frequency > 0.0 && frequency < 4096.0);
    }
}

#[test]
fn thresholds_match_decimal_table() {
    let table = ["0.000", "0.000", "0.060", "0.21", "0.3", "0.4", "0.5", "0.6", "0.999"];
    let mut trumpet = Trumpet::new(bflat_trumpet());
    trumpet.update(&[TrumpetEvent::BlowDown]);
    for (i, text) in table.iter().enumerate().skip(2) {
        let bits = fixed::types::U0F16::strict_from_str(text).to_bits();
        trumpet.update(&[TrumpetEvent::EmbouchureChange(U0F16 { bits })]);
        assert_eq!(trumpet.state.overtone(), Some((i - 1) as u8), "at {}", text);
        trumpet.update(&[TrumpetEvent::EmbouchureChange(U0F16 { bits: bits + 1 })]);
        assert_eq!(trumpet.state.overtone(), Some(i as u8), "above {}", text);
    }
}

#[test]
fn bflat_dimensions_match_decimal_values() {
    let def = bflat_trumpet();
    let u12 = |s: &str| fixed::types::U12F4::strict_from_str(s).to_bits();
    assert_eq!(def.main_tube.bits, u12("1470"));
    assert_eq!(def.first_valve_tube.bits, u12("190"));
    assert_eq!(def.second_valve_tube.bits, u12("95"));
    assert_eq!(def.third_valve_tube.bits, u12("285"));
    assert_eq!(
        def.speed_of_sound.bits,
        fixed::types::U24F8::strict_from_str("343000").to_bits()
    );
}

#[test]
fn no_events_no_command() {
    let mut trumpet = Trumpet::new(bflat_trumpet());
    assert_eq!(trumpet.update(&[]).len(), 0);
    trumpet.update(&[TrumpetEvent::BlowDown]);
    assert_eq!(trumpet.update(&[]).len(), 0);
}

#[test]
fn silent_trumpet_sends_zero_frequency() {
    let mut trumpet = Trumpet::new(bflat_trumpet());
    let commands = trumpet.update(&[TrumpetEvent::BlowStrengthChange(blowstrength(0.5))]);
    assert_eq!(trumpet.frequency(), None);
    assert_eq!(commands.len(), 1);
    assert_eq!(
        commands[0].message,
        CommandMessage::Frequency(U12F4 { bits: 0 }, U4F4 { bits: 8 + 3 })
    );
}

#[test]
fn first_valve_lengthens_tube_and_lowers_pitch() {
    let def = bflat_trumpet();
    let mut open = Trumpet::new(def);
    let mut pressed = Trumpet::new(def);
    let setup = [
        TrumpetEvent::BlowDown,
        TrumpetEvent::BlowStrengthChange(blowstrength(0.8)),
        TrumpetEvent::EmbouchureChange(embouchure(0.23)),
    ];
    open.update(&setup);
    pressed.update(&setup);
    pressed.update(&[TrumpetEvent::ValveDown(Valve::First)]);

    let open_length = open.state.tube_length(&def).bits;
    let pressed_length = pressed.state.tube_length(&def).bits;
    assert_eq!(pressed_length, open_length + def.first_valve_tube.bits);
    let open_frequency = open.frequency().unwrap().bits;
    let pressed_frequency = pressed.frequency().unwrap().bits;
    assert!(pressed_frequency < open_frequency);
    assert_eq!(pressed_frequency, 209931);
}

#[test]
fn all_valves_add_their_tubes() {
    let def = bflat_trumpet();
    let mut trumpet = Trumpet::new(def);
    trumpet.update(&[
        TrumpetEvent::ValveDown(Valve::First),
        TrumpetEvent::ValveDown(Valve::Second),
        TrumpetEvent::ValveDown(Valve::Third),
    ]);
    assert_eq!(trumpet.state.tube_length(&def).bits, (1470 + 190 + 95 + 285) * 16);
    trumpet.update(&[TrumpetEvent::ValveUp(Valve::Second)]);
    assert_eq!(trumpet.state.tube_length(&def).bits, (1470 + 190 + 285) * 16);
}

#[test]
fn later_events_win() {
    let mut trumpet = Trumpet::new(bflat_trumpet());
    trumpet.update(&[
        TrumpetEvent::BlowDown,
        TrumpetEvent::EmbouchureChange(embouchure(0.1)),
        TrumpetEvent::BlowUp,
        TrumpetEvent::EmbouchureChange(embouchure(0.5)),
    ]);
    assert!(!trumpet.state.blow);
    assert_eq!(trumpet.state.embouchure_tightness, embouchure(0.5));
    assert_eq!(trumpet.state.overtone(), None);
}

#[test]
fn replay_is_deterministic() {
    let ticks: Vec<Vec<TrumpetEvent>> = vec![
        vec![TrumpetEvent::BlowDown, TrumpetEvent::EmbouchureChange(embouchure(0.35))],
        vec![],
        vec![TrumpetEvent::ValveDown(Valve::Third)],
        vec![TrumpetEvent::BlowStrengthChange(blowstrength(0.7))],
    ];
    let run = || {
        let mut trumpet = Trumpet::new(bflat_trumpet());
        let mut out = Vec::new();
        for tick in ticks.iter() {
            out.push(trumpet.update(tick).as_slice().to_vec());
        }
        (trumpet.state, out)
    };
    assert_eq!(run(), run());
}

#[test]
fn bend_is_one_at_a_threshold_and_away_from_windows() {
    let mut state = TrumpetState::default();
    state.lung_pressure = blowstrength(0.9);
    state.embouchure_tightness = U0F16 { bits: 13763 };
    assert_eq!(state.bend().bits, 256);
    state.embouchure_tightness = U0F16 { bits: 65535 };
    assert_eq!(state.bend().bits, 256);
}

#[test]
fn bend_goes_up_near_upper_threshold() {
    let mut state = TrumpetState::default();
    state.lung_pressure = blowstrength(0.9);
    // Just below 0.06, in the window (0, 0.06): closest is index 2.
    state.embouchure_tightness = U0F16 { bits: 3900 };
    let bend = state.bend().bits;
    // half = 1966, amount = 1966 - 32 = 1934, capacity = 53083.
    // ((1934 >> 8) * (53083 >> 8)) >> 8 = (7 * 207) >> 8 = 5; 5 * 384 >> 8 = 7.
    assert_eq!(bend, 256 + 7);
}

#[test]
fn valve_state_conversions() {
    assert_eq!(ValveState::from(true), ValveState::Down);
    assert_eq!(ValveState::from(false), ValveState::Up);
    assert!(bool::from(ValveState::Down));
    assert!(!bool::from(ValveState::Up));
    assert_eq!(ValveState::default(), ValveState::Up);
    assert_eq!(usize::from(Valve::Third), 2);
    assert_eq!(Valve::from_index(1), Valve::Second);
}

#[test]
fn valves_set_and_update() {
    let mut valves = Valves::default();
    valves.set(Valve::Second, ValveState::Down);
    assert_eq!(valves.second, ValveState::Down);
    assert_eq!(valves.first, ValveState::Up);
    valves.update(TrumpetEvent::ValveDown(Valve::Third));
    assert_eq!(valves.third, ValveState::Down);
    valves.update(TrumpetEvent::ValveUp(Valve::Second));
    assert_eq!(valves.second, ValveState::Up);
    valves.update(TrumpetEvent::BlowDown);
    assert_eq!(valves.third, ValveState::Down);
}

#[test]
fn command_frequency_saturates_instead_of_wrapping() {
    assert_eq!(U24F8 { bits: 4095 * 256 }.saturating_to_u12f4().bits, 4095 * 16);
    assert_eq!(U24F8 { bits: 0x0010_0000 }.saturating_to_u12f4().bits, 0xFFFF);

    // A 1 mm tube with sound at 5000 mm/s: a fundamental of 5000 Hz, above
    // what a command can carry.
    let tiny = TrumpetDefinition {
        main_tube: U12F4 { bits: 16 },
        first_valve_tube: U12F4 { bits: 16 },
        second_valve_tube: U12F4 { bits: 16 },
        third_valve_tube: U12F4 { bits: 16 },
        speed_of_sound: U24F8 { bits: 5000 * 256 },
    };
    let mut trumpet = Trumpet::new(tiny);
    let commands = trumpet.update(&[
        TrumpetEvent::BlowDown,
        TrumpetEvent::EmbouchureChange(U0F16 { bits: 100 }),
    ]);
    assert_eq!(trumpet.frequency().unwrap().bits, 5000 * 256 * 2);
    assert_eq!(
        commands[0].message,
        CommandMessage::Frequency(U12F4 { bits: 0xFFFF }, U4F4 { bits: 3 })
    );
}
