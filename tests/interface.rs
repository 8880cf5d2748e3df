use std::cell::RefCell;
use std::rc::Rc;

use trumpet_synth::commands::{Command, CommandMessage};
use trumpet_synth::fixed_point::U0F16;
use trumpet_synth::interface::{TrumpetEvent, TrumpetInputs, TrumpetInterface};
use trumpet_synth::io::{Fifo, Inputs, TrumpetInputState, IO};
use trumpet_synth::trumpet::{BlowStrength, Embouchure, Valve};

#[derive(Clone, Default)]
struct FakeInputs {
    state: Rc<RefCell<TrumpetInputState>>,
}

impl Inputs for FakeInputs {
    fn readings(&self) -> TrumpetInputState {
        *self.state.borrow()
    }

    fn valve(&mut self, valve: Valve) -> bool {
        self.state.borrow().valve(valve)
    }

    fn blow(&mut self) -> bool {
        self.state.borrow().blow
    }

    fn embouchure(&mut self) -> Embouchure {
        self.state.borrow().embouchure
    }

    fn blowstrength(&mut self) -> BlowStrength {
        self.state.borrow().blowstrength
    }
}

#[derive(Clone, Default)]
struct FakeFifo {
    words: Rc<RefCell<Vec<u32>>>,
}

impl Fifo for FakeFifo {
    fn written(&self) -> Vec<u32> {
        self.words.borrow().clone()
    }

    fn write(&mut self, value: u32) {
        self.words.borrow_mut().push(value);
    }
}

fn reading(first: bool, second: bool, third: bool, blow: bool, emb: u16, strength: u16) -> TrumpetInputState {
    TrumpetInputState {
        first,
        second,
        third,
        blow,
        embouchure: U0F16 { bits: emb },
        blowstrength: U0F16 { bits: strength },
    }
}

#[test]
fn valve_edges_give_valve_events() {
    let mut inputs = TrumpetInputs::new(FakeInputs::default(), 0);
    inputs.update_events_from(reading(true, false, true, false, 0, 0));
    assert_eq!(
        inputs.events(),
        &[
            TrumpetEvent::ValveDown(Valve::First),
            TrumpetEvent::ValveDown(Valve::Third),
        ]
    );
    inputs.update_events_from(reading(false, true, true, false, 0, 0));
    assert_eq!(
        inputs.events(),
        &[
            TrumpetEvent::ValveUp(Valve::First),
            TrumpetEvent::ValveDown(Valve::Second),
        ]
    );
    inputs.update_events_from(reading(false, true, true, false, 0, 0));
    assert_eq!(inputs.events(), &[]);
}

#[test]
fn all_six_events_in_order() {
    let mut inputs = TrumpetInputs::new(FakeInputs::default(), 0);
    inputs.update_events_from(reading(true, true, true, true, 1000, 2000));
    assert_eq!(
        inputs.events(),
        &[
            TrumpetEvent::ValveDown(Valve::First),
            TrumpetEvent::ValveDown(Valve::Second),
            TrumpetEvent::ValveDown(Valve::Third),
            TrumpetEvent::BlowDown,
            TrumpetEvent::BlowStrengthChange(U0F16 { bits: 2000 }),
            TrumpetEvent::EmbouchureChange(U0F16 { bits: 1000 }),
        ]
    );
    inputs.update_events_from(reading(false, false, false, false, 1000, 2000));
    assert_eq!(
        inputs.events(),
        &[
            TrumpetEvent::ValveUp(Valve::First),
            TrumpetEvent::ValveUp(Valve::Second),
            TrumpetEvent::ValveUp(Valve::Third),
            TrumpetEvent::BlowUp,
        ]
    );
}

#[test]
fn potentiometer_noise_is_ignored() {
    let mut inputs = TrumpetInputs::new(FakeInputs::default(), 0);
    inputs.update_events_from(reading(false, false, false, false, 20, 20));
    assert_eq!(inputs.events(), &[]);
    inputs.update_events_from(reading(false, false, false, false, 0, 41));
    assert_eq!(
        inputs.events(),
        &[TrumpetEvent::BlowStrengthChange(U0F16 { bits: 41 })]
    );
    inputs.update_events_from(reading(false, false, false, false, 21, 20));
    assert_eq!(
        inputs.events(),
        &[
            TrumpetEvent::BlowStrengthChange(U0F16 { bits: 20 }),
            TrumpetEvent::EmbouchureChange(U0F16 { bits: 21 }),
        ]
    );
}

#[test]
fn switches_are_debounced() {
    let mut inputs = TrumpetInputs::new(FakeInputs::default(), 3);
    inputs.update_events_from(reading(false, false, false, true, 0, 0));
    assert_eq!(inputs.events(), &[]);
    inputs.update_events_from(reading(false, false, false, true, 0, 0));
    assert_eq!(inputs.events(), &[]);
    inputs.update_events_from(reading(false, false, false, true, 0, 0));
    assert_eq!(inputs.events(), &[TrumpetEvent::BlowDown]);
    // A two-tick bounce does not come through.
    inputs.update_events_from(reading(false, false, false, false, 0, 0));
    inputs.update_events_from(reading(false, false, false, false, 0, 0));
    assert_eq!(inputs.events(), &[]);
    inputs.update_events_from(reading(false, false, false, true, 0, 0));
    assert_eq!(inputs.events(), &[]);
}

#[test]
fn update_events_reads_the_inputs() {
    let fake = FakeInputs::default();
    let mut inputs = TrumpetInputs::new(fake.clone(), 0);
    *fake.state.borrow_mut() = reading(false, true, false, true, 500, 0);
    inputs.update_events();
    assert_eq!(
        inputs.events(),
        &[TrumpetEvent::ValveDown(Valve::Second), TrumpetEvent::BlowDown, TrumpetEvent::EmbouchureChange(U0F16 { bits: 500 })]
    );
}

#[test]
fn read_from_takes_every_input() {
    let mut fake = FakeInputs::default();
    let expected = reading(true, false, true, true, 7, 9);
    *fake.state.borrow_mut() = expected;
    assert_eq!(TrumpetInputState::read_from(&mut fake), expected);
    assert_eq!(expected.valves(), [true, false, true]);
}

#[test]
fn interface_sends_one_word_per_tick_with_events() {
    let fake = FakeInputs::default();
    let fifo = FakeFifo::default();
    let io = IO::new(fifo.clone(), fake.clone());
    let mut interface = TrumpetInterface::new(io, 0);

    interface.run();
    assert!(fifo.words.borrow().is_empty());

    *fake.state.borrow_mut() = TrumpetInputState {
        first: false,
        second: false,
        third: false,
        blow: true,
        embouchure: U0F16 {
            bits: fixed::types::U0F16::from_num(0.23).to_bits(),
        },
        blowstrength: U0F16 {
            bits: fixed::types::U0F16::from_num(0.8).to_bits(),
        },
    };
    interface.run();
    let words = fifo.words.borrow().clone();
    assert_eq!(words.len(), 1);
    let command = Command::deserialize(words[0]).unwrap();
    assert_eq!(command.address, 0);
    match command.message {
        CommandMessage::Frequency(frequency, volume) => {
            assert_eq!(frequency.bits, 14816);
            assert_eq!(volume.bits, 15);
        }
        other => panic!("unexpected message {:?}", other),
    }

    interface.run();
    assert_eq!(fifo.words.borrow().len(), 1);
}

#[test]
fn pipeline_never_panics_on_pseudo_random_input() {
    let fake = FakeInputs::default();
    let fifo = FakeFifo::default();
    let mut interface = TrumpetInterface::new(IO::new(fifo.clone(), fake.clone()), 2);
    let mut synth = trumpet_synth::synth::create();
    let mut seed: u32 = 0x1234_5678;
    for _ in 0..5000 {
        seed ^= seed << 13;
        seed ^= seed >> 17;
        seed ^= seed << 5;
        *fake.state.borrow_mut() = reading(
            seed & 1 != 0,
            seed & 2 != 0,
            seed & 4 != 0,
            seed & 8 != 0,
            (seed >> 8) as u16,
            (seed >> 16) as u16,
        );
        interface.run();
        for word in fifo.words.borrow_mut().drain(..) {
            trumpet_synth::render::apply_word(&mut synth, Some(word));
        }
        synth.next();
    }
}
