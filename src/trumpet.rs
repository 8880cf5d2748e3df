//! Model of the tubing of a trumpet, the air in it and the lips at its
//! mouthpiece, which turns events into a target frequency and volume.
use crate::commands::{lemma_round_trip, Command, CommandMessage};
use crate::fixed_point::{U0F16, U12F4, U24F8, U4F4};
use crate::interface::TrumpetEvent;
use crate::lists::{command_items, new_command_list, push_command};
use vstd::arithmetic::div_mod::{
    lemma_div_is_ordered,
    lemma_div_is_ordered_by_denominator,
    lemma_fundamental_div_mod_converse,
};
use vstd::prelude::*;

verus! {

/// Position of one valve; `Down` while it is pressed.
#[derive(Clone, Copy, Debug, PartialEq, Eq, Structural)]
pub enum ValveState {
    Up,
    Down,
}

impl Default for ValveState {
    fn default() -> (r: ValveState)
        ensures
            r == ValveState::Up,
    {
        ValveState::Up
    }
}

impl From<bool> for ValveState {
    fn from(value: bool) -> (r: ValveState) {
        if value {
            ValveState::Down
        } else {
            ValveState::Up
        }
    }
}

impl vstd::std_specs::convert::FromSpecImpl<bool> for ValveState {
    open spec fn obeys_from_spec() -> bool {
        true
    }

    open spec fn from_spec(value: bool) -> ValveState {
        if value {
            ValveState::Down
        } else {
            ValveState::Up
        }
    }
}

impl From<ValveState> for bool {
    fn from(value: ValveState) -> (r: bool) {
        value == ValveState::Down
    }
}

impl vstd::std_specs::convert::FromSpecImpl<ValveState> for bool {
    open spec fn obeys_from_spec() -> bool {
        true
    }

    open spec fn from_spec(value: ValveState) -> bool {
        value == ValveState::Down
    }
}

/// One of the three valves.
#[derive(Clone, Copy, Debug, PartialEq, Eq, Structural)]
pub enum Valve {
    First,
    Second,
    Third,
}

impl Valve {
    /// Position of the valve, counting from 0.
    pub open spec fn index_spec(self) -> int {
        match self {
            Valve::First => 0,
            Valve::Second => 1,
            Valve::Third => 2,
        }
    }

    /// The valve at position `index`, counting from 0.
    pub fn from_index(index: usize) -> (r: Valve)
        requires
            index < 3,
        ensures
            r.index_spec() == index,
    {
        if index == 0 {
            Valve::First
        } else if index == 1 {
            Valve::Second
        } else {
            Valve::Third
        }
    }
}

impl From<Valve> for usize {
    fn from(valve: Valve) -> (r: usize) {
        match valve {
            Valve::First => 0,
            Valve::Second => 1,
            Valve::Third => 2,
        }
    }
}

impl vstd::std_specs::convert::FromSpecImpl<Valve> for usize {
    open spec fn obeys_from_spec() -> bool {
        true
    }

    open spec fn from_spec(valve: Valve) -> usize {
        valve.index_spec() as usize
    }
}

/// Positions of the three valves.
#[derive(Clone, Copy, Debug, PartialEq, Eq, Structural)]
pub struct Valves {
    pub first: ValveState,
    pub second: ValveState,
    pub third: ValveState,
}

impl Default for Valves {
    fn default() -> (r: Valves)
        ensures
            r == (Valves { first: ValveState::Up, second: ValveState::Up, third: ValveState::Up }),
    {
        Valves { first: ValveState::Up, second: ValveState::Up, third: ValveState::Up }
    }
}

impl Valves {
    /// These positions with `valve` in position `state`.
    pub open spec fn with(self, valve: Valve, state: ValveState) -> Valves {
        match valve {
            Valve::First => Valves { first: state, ..self },
            Valve::Second => Valves { second: state, ..self },
            Valve::Third => Valves { third: state, ..self },
        }
    }

    /// These positions after `event`; only valve events move a valve.
    pub open spec fn after(self, event: TrumpetEvent) -> Valves {
        match event {
            TrumpetEvent::ValveUp(v) => self.with(v, ValveState::Up),
            TrumpetEvent::ValveDown(v) => self.with(v, ValveState::Down),
            _ => self,
        }
    }

    pub fn set(&mut self, valve: Valve, state: ValveState)
        ensures
            *final(self) == old(self).with(valve, state),
    {
        match valve {
            Valve::First => self.first = state,
            Valve::Second => self.second = state,
            Valve::Third => self.third = state,
        }
    }

    pub fn update(&mut self, event: TrumpetEvent)
        ensures
            *final(self) == old(self).after(event),
    {
        match event {
            TrumpetEvent::ValveUp(valve) => self.set(valve, ValveState::Up),
            TrumpetEvent::ValveDown(valve) => self.set(valve, ValveState::Down),
            _ => (),
        }
    }
}

/// Lip tension, as a fraction of its range.
pub type Embouchure = U0F16;

/// Breath pressure, as a fraction of its range.
pub type BlowStrength = U0F16;

/// The fixed dimensions of one instrument; lengths in millimetres, speed in
/// millimetres per second.
#[derive(Clone, Copy, Debug, PartialEq, Eq, Structural)]
pub struct TrumpetDefinition {
    pub main_tube: U12F4,
    pub first_valve_tube: U12F4,
    pub second_valve_tube: U12F4,
    pub third_valve_tube: U12F4,
    pub speed_of_sound: U24F8,
}

/// Largest fundamental (in 1/256 Hz) for which every harmonic, bent as far
/// as it goes, still fits in 32 bits.
pub const MAX_FUNDAMENTAL_BITS: u32 = 0x0E38_E38E;

impl TrumpetDefinition {
    /// Fundamental frequency (in 1/256 Hz) of a tube of `tube_bits` (in
    /// 1/16 mm).
    pub open spec fn fundamental_spec(self, tube_bits: int) -> int {
        (self.speed_of_sound.bits as int * 256) / (tube_bits * 16)
    }

    /// The main tube has a length, all tubes together fit 12 integer bits,
    /// and the shortest tube's fundamental fits its bound.
    pub open spec fn wf(self) -> bool {
        &&& self.main_tube.bits > 0
        &&& self.main_tube.bits + self.first_valve_tube.bits + self.second_valve_tube.bits
            + self.third_valve_tube.bits <= u16::MAX
        &&& self.fundamental_spec(self.main_tube.bits as int) <= MAX_FUNDAMENTAL_BITS
    }
}

/// A B-flat trumpet: a main tube of 1470 mm, valve tubes of 190, 95 and
/// 285 mm, and sound at 343000 mm/s.
pub open spec fn bflat_trumpet_spec() -> TrumpetDefinition {
    TrumpetDefinition {
        main_tube: U12F4 { bits: 23520 },
        first_valve_tube: U12F4 { bits: 3040 },
        second_valve_tube: U12F4 { bits: 1520 },
        third_valve_tube: U12F4 { bits: 4560 },
        speed_of_sound: U24F8 { bits: 87_808_000 },
    }
}

/// The dimensions of a B-flat trumpet.
pub fn bflat_trumpet() -> (r: TrumpetDefinition)
    ensures
        r == bflat_trumpet_spec(),
        r.wf(),
{
    let r = TrumpetDefinition {
        main_tube: U12F4 { bits: 1470 * 16 },
        first_valve_tube: U12F4 { bits: 190 * 16 },
        second_valve_tube: U12F4 { bits: 95 * 16 },
        third_valve_tube: U12F4 { bits: 285 * 16 },
        speed_of_sound: U24F8 { bits: 343000 * 256 },
    };
    proof {
        lemma_fundamental_div_mod_converse(343000int * 256 * 256, 1470int * 16 * 16, 59733, 125440);
    }
    r
}

/// Number of entries of the embouchure table.
pub const OVERTONE_COUNT: usize = 9;

/// The embouchure (in 1/65536) above which overtone `i` sounds: entries for
/// 0, 0, 0.06, 0.21, 0.3, 0.4, 0.5, 0.6 and 0.999. The first two are floors
/// that any embouchure above 0 passes.
pub open spec fn threshold_spec(i: int) -> int {
    if i <= 1 {
        0
    } else if i == 2 {
        3932
    } else if i == 3 {
        13763
    } else if i == 4 {
        19661
    } else if i == 5 {
        26214
    } else if i == 6 {
        32768
    } else if i == 7 {
        39322
    } else {
        65470
    }
}

/// How far (in 1/256) the pitch near overtone `i` bends: 2.0, 1.5, 1.5, 0.5,
/// 0.5, 0.4, 0.3, 0.1 and 0.0; higher overtones bend less.
pub open spec fn bendability_spec(i: int) -> int {
    if i == 0 {
        512
    } else if i <= 2 {
        384
    } else if i <= 4 {
        128
    } else if i == 5 {
        102
    } else if i == 6 {
        77
    } else if i == 7 {
        26
    } else {
        0
    }
}

fn embouchure_threshold(i: usize) -> (r: Embouchure)
    requires
        i < OVERTONE_COUNT,
    ensures
        r.bits == threshold_spec(i as int),
{
    let bits: u16 = if i <= 1 {
        0
    } else if i == 2 {
        3932
    } else if i == 3 {
        13763
    } else if i == 4 {
        19661
    } else if i == 5 {
        26214
    } else if i == 6 {
        32768
    } else if i == 7 {
        39322
    } else {
        65470
    };
    U0F16 { bits }
}

fn bendability(i: usize) -> (r: U24F8)
    requires
        i < OVERTONE_COUNT,
    ensures
        r.bits == bendability_spec(i as int),
{
    let bits: u32 = if i == 0 {
        512
    } else if i <= 2 {
        384
    } else if i <= 4 {
        128
    } else if i == 5 {
        102
    } else if i == 6 {
        77
    } else if i == 7 {
        26
    } else {
        0
    };
    U24F8 { bits }
}

/// The highest `i < n` whose threshold `e` exceeds.
pub open spec fn highest_threshold_below(e: int, n: int) -> Option<int>
    decreases n,
{
    if n <= 0 {
        None
    } else if e > threshold_spec(n - 1) {
        Some(n - 1)
    } else {
        highest_threshold_below(e, n - 1)
    }
}

/// The highest `j < n` such that `e` lies strictly between thresholds `j`
/// and `j + 1`.
pub open spec fn window_containing(e: int, n: int) -> Option<int>
    decreases n,
{
    if n <= 0 {
        None
    } else if threshold_spec(n - 1) < e && e < threshold_spec(n) {
        Some(n - 1)
    } else {
        window_containing(e, n - 1)
    }
}

/// How much of the bend the lung pressure can use: 0.9 in 1/65536.
pub const BEND_CAPACITY_BITS: u16 = 58982;

/// Pitch bend factor (in 1/256) for embouchure `e` and lung pressure `lung`
/// (both in 1/65536). Between two thresholds the embouchure is drawn to the
/// nearer one: the distance from the midpoint, scaled by the pressure and by
/// the bendability of that overtone, bends the pitch down toward the lower
/// one or up toward the upper one. Elsewhere there is no bend.
pub open spec fn bend_spec(e: int, lung: int) -> int {
    match window_containing(e, 8) {
        None => 256,
        Some(j) => {
            let lo = threshold_spec(j);
            let hi = threshold_spec(j + 1);
            let half = (hi - lo) / 2;
            let up = e - lo >= hi - e;
            let amount = if up {
                half - (hi - e)
            } else {
                half - (e - lo)
            };
            let closest = if up {
                j + 1
            } else {
                j
            };
            let capacity = (BEND_CAPACITY_BITS * lung) / 0x1_0000;
            let x = ((amount / 256) * (capacity / 256)) / 256 * bendability_spec(closest) / 256;
            if up {
                256 + x
            } else {
                256 - x
            }
        },
    }
}

/// The mechanics of the trumpet, the air inside it and the vibrating lips,
/// at one instant.
#[derive(Clone, Copy, Debug, PartialEq, Eq, Structural)]
pub struct TrumpetState {
    pub valves: Valves,
    pub blow: bool,
    pub embouchure_tightness: Embouchure,
    pub lung_pressure: BlowStrength,
}

impl Default for TrumpetState {
    fn default() -> (r: TrumpetState)
        ensures
            r == TrumpetState::initial(),
    {
        TrumpetState {
            valves: Valves::default(),
            blow: false,
            embouchure_tightness: U0F16 { bits: 0 },
            lung_pressure: U0F16 { bits: 0 },
        }
    }
}

impl TrumpetState {
    /// All valves up, no breath, lips slack.
    pub open spec fn initial() -> TrumpetState {
        TrumpetState {
            valves: Valves { first: ValveState::Up, second: ValveState::Up, third: ValveState::Up },
            blow: false,
            embouchure_tightness: U0F16 { bits: 0 },
            lung_pressure: U0F16 { bits: 0 },
        }
    }

    /// Length of air column (in 1/16 mm): the main tube and the tube of
    /// every valve that is down.
    pub open spec fn tube_length_spec(self, def: TrumpetDefinition) -> int {
        def.main_tube.bits + (if self.valves.first == ValveState::Down {
            def.first_valve_tube.bits as int
        } else {
            0
        }) + (if self.valves.second == ValveState::Down {
            def.second_valve_tube.bits as int
        } else {
            0
        }) + (if self.valves.third == ValveState::Down {
            def.third_valve_tube.bits as int
        } else {
            0
        })
    }

    /// The overtone index that sounds, `None` without breath.
    pub open spec fn overtone_spec(self) -> Option<int> {
        if self.blow {
            highest_threshold_below(self.embouchure_tightness.bits as int, OVERTONE_COUNT as int)
        } else {
            None
        }
    }

    pub open spec fn bend_factor(self) -> int {
        bend_spec(self.embouchure_tightness.bits as int, self.lung_pressure.bits as int)
    }

    /// Volume in 1/16: the lung pressure plus 0.2.
    pub open spec fn volume_spec(self) -> int {
        self.lung_pressure.bits / 0x1000 + 3
    }

    /// The state after one event.
    pub open spec fn after(self, event: TrumpetEvent) -> TrumpetState {
        let valves = self.valves.after(event);
        match event {
            TrumpetEvent::EmbouchureChange(e) => TrumpetState {
                valves,
                embouchure_tightness: e,
                ..self
            },
            TrumpetEvent::BlowStrengthChange(b) => TrumpetState {
                valves,
                lung_pressure: b,
                ..self
            },
            TrumpetEvent::BlowUp => TrumpetState { valves, blow: false, ..self },
            TrumpetEvent::BlowDown => TrumpetState { valves, blow: true, ..self },
            _ => TrumpetState { valves, ..self },
        }
    }

    /// The state after `events`, applied in order.
    pub open spec fn after_all(self, events: Seq<TrumpetEvent>) -> TrumpetState
        decreases events.len(),
    {
        if events.len() == 0 {
            self
        } else {
            self.after_all(events.drop_last()).after(events.last())
        }
    }

    pub fn tube_length(&self, def: &TrumpetDefinition) -> (r: U12F4)
        requires
            def.wf(),
        ensures
            r.bits == self.tube_length_spec(*def),
    {
        let mut length: u16 = def.main_tube.bits;
        if self.valves.first.into() {
            length = length + def.first_valve_tube.bits;
        }
        if self.valves.second.into() {
            length = length + def.second_valve_tube.bits;
        }
        if self.valves.third.into() {
            length = length + def.third_valve_tube.bits;
        }
        U12F4 { bits: length }
    }

    /// Based on the embouchure tightness, which overtone is playing; `None`
    /// if no note is playing. Frequency = fundamental * (overtone + 1).
    pub fn overtone(&self) -> (r: Option<u8>)
        ensures
            match r {
                Some(k) => self.overtone_spec() == Some(k as int),
                None => self.overtone_spec() is None,
            },
    {
        if !self.blow {
            return None;
        }
        let e = self.embouchure_tightness.bits;
        let mut i: usize = OVERTONE_COUNT;
        while i > 0
            invariant
                i <= OVERTONE_COUNT,
                self.blow,
                self.overtone_spec() == highest_threshold_below(e as int, i as int),
            decreases i,
        {
            if e > embouchure_threshold(i - 1).bits {
                return Some((i - 1) as u8);
            }
            i = i - 1;
        }
        None
    }

    /// Pitch bend factor, centred at 1.
    pub fn bend(&self) -> (r: U24F8)
        ensures
            r.bits == self.bend_factor(),
            r.bits < 512,
    {
        let e = self.embouchure_tightness;
        let mut j: usize = OVERTONE_COUNT - 1;
        while j > 0
            invariant
                j < OVERTONE_COUNT,
                e == self.embouchure_tightness,
                window_containing(e.bits as int, 8) == window_containing(e.bits as int, j as int),
            decreases j,
        {
            let lo = embouchure_threshold(j - 1);
            let hi = embouchure_threshold(j);
            if lo.bits < e.bits && e.bits < hi.bits {
                let half: u16 = (hi.bits - lo.bits) / 2;
                let d_lo = e.abs_diff(lo);
                let d_hi = e.abs_diff(hi);
                let up = d_lo.bits >= d_hi.bits;
                let amount = if up {
                    U0F16 { bits: half - d_hi.bits }
                } else {
                    U0F16 { bits: half - d_lo.bits }
                };
                let closest: usize = if up {
                    j
                } else {
                    j - 1
                };
                let capacity = U0F16 { bits: BEND_CAPACITY_BITS }.mul(self.lung_pressure);
                let a = amount.to_u24f8();
                let c = capacity.to_u24f8();
                assert(a.bits <= 127 && c.bits <= 255);
                assert(a.bits as int * c.bits as int <= 127 * 255) by (nonlinear_arith)
                    requires
                        a.bits <= 127,
                        c.bits <= 255,
                ;
                let ac = a.mul(c);
                let k = bendability(closest);
                assert(ac.bits <= 127 && k.bits <= 512);
                assert(ac.bits as int * k.bits as int <= 127 * 512) by (nonlinear_arith)
                    requires
                        ac.bits <= 127,
                        k.bits <= 512,
                ;
                let x = ac.mul(k);
                assert(x.bits < 256);
                let bits: u32 = if up {
                    256 + x.bits
                } else {
                    256 - x.bits
                };
                return U24F8 { bits };
            }
            j = j - 1;
        }
        U24F8 { bits: 256 }
    }

    pub fn volume(&self) -> (r: U4F4)
        ensures
            r.bits == self.volume_spec(),
    {
        U4F4 { bits: self.lung_pressure.to_u4f4().bits + 3 }
    }

    pub fn update(&mut self, event: TrumpetEvent)
        ensures
            *final(self) == old(self).after(event),
    {
        self.valves.update(event);
        match event {
            TrumpetEvent::EmbouchureChange(e) => self.embouchure_tightness = e,
            TrumpetEvent::BlowStrengthChange(b) => self.lung_pressure = b,
            TrumpetEvent::BlowUp => self.blow = false,
            TrumpetEvent::BlowDown => self.blow = true,
            _ => (),
        }
    }
}

/// One instrument: its fixed dimensions and its current state.
#[derive(Debug)]
pub struct Trumpet {
    pub def: TrumpetDefinition,
    pub state: TrumpetState,
}

impl Trumpet {
    pub open spec fn wf(self) -> bool {
        self.def.wf()
    }

    /// Frequency (in 1/256 Hz) of the note that sounds, `None` if none does.
    pub open spec fn frequency_spec(self) -> Option<int> {
        match self.state.overtone_spec() {
            None => None,
            Some(k) => {
                let def = self.def;
                let fundamental = def.fundamental_spec(self.state.tube_length_spec(def));
                Some((fundamental * (k + 1) * self.state.bend_factor()) / 256)
            },
        }
    }

    /// The frequency (in 1/16 Hz) that a command carries: the sounding
    /// frequency, saturated to 16 bits, or 0 when nothing sounds.
    pub open spec fn wire_frequency(self) -> int {
        match self.frequency_spec() {
            None => 0,
            Some(f) => if f / 16 <= u16::MAX {
                f / 16
            } else {
                u16::MAX as int
            },
        }
    }

    /// The command that carries the current frequency and volume.
    pub open spec fn command_spec(self) -> Command {
        Command {
            address: 0,
            message: CommandMessage::Frequency(
                U12F4 { bits: self.wire_frequency() as u16 },
                U4F4 { bits: self.state.volume_spec() as u8 },
            ),
        }
    }

    /// The commands for one tick's `events`: one carrying the state after
    /// them, or none if there were none.
    pub open spec fn commands_spec(self, events: Seq<TrumpetEvent>) -> Seq<Command> {
        if events.len() > 0 {
            seq![Trumpet { state: self.state.after_all(events), ..self }.command_spec()]
        } else {
            Seq::empty()
        }
    }

    pub fn new(def: TrumpetDefinition) -> (r: Trumpet)
        requires
            def.wf(),
        ensures
            r.wf(),
            r.def == def,
            r.state == TrumpetState::initial(),
    {
        Trumpet { def, state: TrumpetState::default() }
    }

    /// Frequency of the sounding note, `None` if none sounds. A command
    /// carries it in steps of 1/16 Hz up to about 4095.94 Hz, which holds
    /// the high notes of a trumpet: they rarely exceed 2 kHz.
    pub fn frequency(&self) -> (r: Option<U24F8>)
        requires
            self.wf(),
        ensures
            match r {
                Some(f) => self.frequency_spec() == Some(f.bits as int),
                None => self.frequency_spec() is None,
            },
    {
        let overtone = match self.state.overtone() {
            Some(k) => k,
            None => {
                return None;
            },
        };
        proof {
            lemma_overtone_range(self.state.embouchure_tightness.bits as int, OVERTONE_COUNT as int);
        }
        let tube_length = self.state.tube_length(&self.def);
        let tube = tube_length.to_u24f8();
        let ghost t = self.state.tube_length_spec(self.def);
        proof {
            lemma_fundamental_bound(self.def, t);
        }
        let fundamental = self.def.speed_of_sound.div(tube);
        let n: u32 = overtone as u32 + 1;
        assert(fundamental.bits as int * n <= MAX_FUNDAMENTAL_BITS as int * 9) by (nonlinear_arith)
            requires
                fundamental.bits <= MAX_FUNDAMENTAL_BITS,
                n <= 9,
        ;
        assert((fundamental.bits as int * (n * 256)) / 256 == fundamental.bits as int * n)
            by (nonlinear_arith);
        let harmonic = fundamental.mul(U24F8 { bits: n * 256 });
        let bend = self.state.bend();
        assert(harmonic.bits as int * bend.bits as int <= MAX_FUNDAMENTAL_BITS as int * 9 * 512)
            by (nonlinear_arith)
            requires
                harmonic.bits <= MAX_FUNDAMENTAL_BITS as int * 9,
                bend.bits < 512,
        ;
        Some(harmonic.mul(bend))
    }

    /// Applies one tick's events in order and returns the command for the
    /// resulting state: exactly one if there were events, none otherwise.
    pub fn update(&mut self, events: &[TrumpetEvent]) -> (r: heapless::Vec<Command, 4>)
        requires
            old(self).wf(),
        ensures
            final(self).wf(),
            final(self).def == old(self).def,
            final(self).state == old(self).state.after_all(events@),
            command_items(r) == old(self).commands_spec(events@),
            events@.len() == 0 ==> command_items(r).len() == 0,
            forall|k: int|
                0 <= k < command_items(r).len() ==> (#[trigger] command_items(r)[k]).encodable(),
    {
        let mut i: usize = 0;
        while i < events.len()
            invariant
                i <= events@.len(),
                self.def == old(self).def,
                self.state == old(self).state.after_all(events@.take(i as int)),
            decreases events@.len() - i,
        {
            assert(events@.take(i + 1).drop_last() =~= events@.take(i as int));
            self.state.update(events[i]);
            i = i + 1;
        }
        assert(events@.take(events@.len() as int) =~= events@);
        let mut commands = new_command_list();
        if events.len() > 0 {
            let frequency = match self.frequency() {
                Some(f) => f.saturating_to_u12f4(),
                None => U12F4 { bits: 0 },
            };
            let volume = self.state.volume();
            let pushed = push_command(
                &mut commands,
                Command { address: 0, message: CommandMessage::Frequency(frequency, volume) },
            );
            assert(pushed is Ok);
        }
        commands
    }
}

impl TrumpetState {
    /// This state with `valve` pressed.
    pub open spec fn pressing(self, valve: Valve) -> TrumpetState {
        TrumpetState { valves: self.valves.with(valve, ValveState::Down), ..self }
    }
}

impl Trumpet {
    /// This trumpet after one tick's `events`.
    pub open spec fn updated(self, events: Seq<TrumpetEvent>) -> Trumpet {
        Trumpet { state: self.state.after_all(events), ..self }
    }
}

/// Length (in 1/16 mm) of the tube that `valve` adds.
pub open spec fn valve_tube(def: TrumpetDefinition, valve: Valve) -> int {
    match valve {
        Valve::First => def.first_valve_tube.bits as int,
        Valve::Second => def.second_valve_tube.bits as int,
        Valve::Third => def.third_valve_tube.bits as int,
    }
}

/// The trumpet after ticks of `batches`, one batch of events per tick, and
/// the commands of each tick.
pub open spec fn replay(t: Trumpet, batches: Seq<Seq<TrumpetEvent>>) -> (Trumpet, Seq<Seq<Command>>)
    decreases batches.len(),
{
    if batches.len() == 0 {
        (t, Seq::empty())
    } else {
        let (u, commands) = replay(t, batches.drop_last());
        (u.updated(batches.last()), commands.push(u.commands_spec(batches.last())))
    }
}

/// The model is a function of its state and its events: replaying the same
/// ticks from the same trumpet gives the same final trumpet and the same
/// commands, tick by tick.
pub proof fn lemma_replay_deterministic(
    t1: Trumpet,
    t2: Trumpet,
    batches: Seq<Seq<TrumpetEvent>>,
)
    requires
        t1 == t2,
    ensures
        replay(t1, batches) == replay(t2, batches),
    decreases batches.len(),
{
    if batches.len() > 0 {
        lemma_replay_deterministic(t1, t2, batches.drop_last());
    }
}

/// Every command the model produces comes back unchanged from its
/// transport word.
pub proof fn lemma_model_commands_round_trip(t: Trumpet, events: Seq<TrumpetEvent>)
    ensures
        forall|k: int|
            0 <= k < t.commands_spec(events).len() ==> Command::of_word(
                (#[trigger] t.commands_spec(events)[k]).word(),
            ) == Some(t.commands_spec(events)[k]),
{
    if events.len() > 0 {
        lemma_round_trip(t.updated(events).command_spec());
    }
}

/// Pressing a valve that is up lengthens the air column by exactly that
/// valve's tube and never raises the pitch: with the same breath and lips
/// the note sounds or not as before, at a frequency no higher.
pub proof fn lemma_valve_lowers_pitch(t: Trumpet, valve: Valve)
    requires
        t.wf(),
        t.state.valves.with(valve, ValveState::Up) == t.state.valves,
    ensures
        t.state.pressing(valve).tube_length_spec(t.def) == t.state.tube_length_spec(t.def)
            + valve_tube(t.def, valve),
        (Trumpet { state: t.state.pressing(valve), ..t }).frequency_spec() is Some
            <==> t.frequency_spec() is Some,
        (Trumpet { state: t.state.pressing(valve), ..t }).frequency_spec() matches Some(lower)
            ==> lower <= t.frequency_spec()->0,
{
    let pressed = Trumpet { state: t.state.pressing(valve), ..t };
    let def = t.def;
    assert(pressed.state.overtone_spec() == t.state.overtone_spec());
    assert(pressed.state.bend_factor() == t.state.bend_factor());
    if let Some(k) = t.state.overtone_spec() {
        let short = t.state.tube_length_spec(def);
        let long = pressed.state.tube_length_spec(def);
        lemma_div_is_ordered_by_denominator(
            def.speed_of_sound.bits as int * 256,
            short * 16,
            long * 16,
        );
        let f_short = def.fundamental_spec(short);
        let f_long = def.fundamental_spec(long);
        let b = t.state.bend_factor();
        lemma_overtone_range(t.state.embouchure_tightness.bits as int, OVERTONE_COUNT as int);
        lemma_bend_range(t.state.embouchure_tightness.bits as int, t.state.lung_pressure.bits as int);
        assert(f_long * (k + 1) * b <= f_short * (k + 1) * b) by (nonlinear_arith)
            requires
                0 <= f_long <= f_short,
                0 <= k,
                0 <= b,
        ;
        lemma_div_is_ordered(f_long * (k + 1) * b, f_short * (k + 1) * b, 256);
    }
}

proof fn lemma_bflat_fundamental(tube: int, q: int, r: int)
    requires
        0 <= r < tube * 16,
        87_808_000 * 256 == q * (tube * 16) + r,
    ensures
        bflat_trumpet_spec().fundamental_spec(tube) == q,
{
    lemma_fundamental_div_mod_converse(87_808_000int * 256, tube * 16, q, r);
}

/// On the B-flat trumpet, pressing the first valve while a note sounds
/// strictly lowers the note's frequency.
pub proof fn lemma_bflat_first_valve_lowers_strictly(t: Trumpet)
    requires
        t.def == bflat_trumpet_spec(),
        t.state.valves.first == ValveState::Up,
        t.frequency_spec() is Some,
    ensures
        (Trumpet { state: t.state.pressing(Valve::First), ..t }).frequency_spec()->0
            < t.frequency_spec()->0,
{
    let pressed = Trumpet { state: t.state.pressing(Valve::First), ..t };
    let def = t.def;
    assert(bflat_trumpet_spec().wf()) by {
        lemma_bflat_fundamental(23520, 59733, 125440);
    }
    lemma_valve_lowers_pitch(t, Valve::First);
    let k = t.state.overtone_spec()->0;
    let short = t.state.tube_length_spec(def);
    let long = pressed.state.tube_length_spec(def);
    lemma_bflat_fundamental(23520, 59733, 125440);
    lemma_bflat_fundamental(25040, 56107, 139520);
    lemma_bflat_fundamental(28080, 50033, 21760);
    lemma_bflat_fundamental(29600, 47463, 371200);
    lemma_bflat_fundamental(26560, 52896, 163840);
    lemma_bflat_fundamental(31120, 45145, 249600);
    lemma_bflat_fundamental(32640, 43043, 71680);
    let f_short = def.fundamental_spec(short);
    let f_long = def.fundamental_spec(long);
    assert(f_long + 4420 <= f_short);
    lemma_overtone_range(t.state.embouchure_tightness.bits as int, OVERTONE_COUNT as int);
    lemma_bend_range(t.state.embouchure_tightness.bits as int, t.state.lung_pressure.bits as int);
    let b = t.state.bend_factor();
    let lower = f_long * (k + 1) * b;
    let higher = f_short * (k + 1) * b;
    assert(lower + 256 <= higher) by (nonlinear_arith)
        requires
            0 <= f_long,
            f_long + 4420 <= f_short,
            0 <= k,
            2 <= b,
            lower == f_long * (k + 1) * b,
            higher == f_short * (k + 1) * b,
    ;
    assert(lower / 256 < higher / 256) by (nonlinear_arith)
        requires
            0 <= lower,
            lower + 256 <= higher,
    ;
}

proof fn lemma_bend_range(e: int, lung: int)
    requires
        0 <= e < 0x1_0000,
        0 <= lung < 0x1_0000,
    ensures
        2 <= bend_spec(e, lung),
{
    if let Some(j) = window_containing(e, 8) {
        lemma_window_range(e, 8);
        let lo = threshold_spec(j);
        let hi = threshold_spec(j + 1);
        let half = (hi - lo) / 2;
        let up = e - lo >= hi - e;
        let amount = if up {
            half - (hi - e)
        } else {
            half - (e - lo)
        };
        let closest = if up {
            j + 1
        } else {
            j
        };
        let capacity = (BEND_CAPACITY_BITS * lung) / 0x1_0000;
        assert(0 <= amount <= 0x8000);
        assert(0 <= BEND_CAPACITY_BITS * lung <= 0xFFFF * 0xFFFF) by (nonlinear_arith)
            requires
                0 <= lung < 0x1_0000,
        ;
        assert(0 <= capacity < 0x1_0000);
        let a = amount / 256;
        let c = capacity / 256;
        assert(0 <= a * c <= 128 * 255) by (nonlinear_arith)
            requires
                0 <= a <= 128,
                0 <= c <= 255,
        ;
        let ac = (a * c) / 256;
        assert(0 <= ac <= 127);
        assert(0 <= ac * bendability_spec(closest) <= 127 * 512) by (nonlinear_arith)
            requires
                0 <= ac <= 127,
                0 <= bendability_spec(closest) <= 512,
        ;
    }
}

proof fn lemma_window_range(e: int, n: int)
    ensures
        window_containing(e, n) matches Some(j) ==> 0 <= j < n && threshold_spec(j) < e
            < threshold_spec(j + 1),
    decreases n,
{
    if n > 0 {
        lemma_window_range(e, n - 1);
    }
}

proof fn lemma_overtone_range(e: int, n: int)
    ensures
        highest_threshold_below(e, n) matches Some(k) ==> 0 <= k < n,
    decreases n,
{
    if n > 0 {
        lemma_overtone_range(e, n - 1);
    }
}

proof fn lemma_fundamental_bound(def: TrumpetDefinition, t: int)
    requires
        def.wf(),
        def.main_tube.bits <= t,
    ensures
        def.fundamental_spec(t) <= def.fundamental_spec(def.main_tube.bits as int),
        def.fundamental_spec(t) <= MAX_FUNDAMENTAL_BITS,
{
    lemma_div_is_ordered_by_denominator(
        def.speed_of_sound.bits as int * 256,
        def.main_tube.bits as int * 16,
        t * 16,
    );
}

} // verus!
