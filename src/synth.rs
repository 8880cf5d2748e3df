//! The voice of the instrument: a sawtooth oscillator followed by a one-pole
//! low-pass filter, driven by commands.
use crate::commands::{Command, CommandMessage};
use crate::fixed_point::{I1F15, U12F4, U4F4};
use vstd::arithmetic::div_mod::{lemma_div_is_ordered, lemma_fundamental_div_mod_converse};
use vstd::prelude::*;

verus! {

/// Output samples per second.
pub const SAMPLE_RATE: u32 = 48_000;

/// Phase advance per sample (in 1/2^32 of a period) for a frequency of
/// `freq_bits` / 16 Hz.
pub open spec fn phase_step(freq_bits: int) -> int {
    (freq_bits * 0x1000_0000) / (SAMPLE_RATE as int)
}

/// Sawtooth sample (in 1/32768) at `phase` (in 1/2^32 of a period) with
/// volume `volume` / 16: rising from -volume to +volume over one period,
/// clipped to [-1, 1).
pub open spec fn saw_sample(phase: int, volume: int) -> int {
    let v = (phase / 0x1_0000) * volume / 16 - 2048 * volume;
    if v < -0x8000 {
        -0x8000
    } else if v > 0x7FFF {
        0x7FFF
    } else {
        v
    }
}

/// What an oscillator holds: its phase and its phase step (both in 1/2^32
/// of a period) and its volume.
pub struct SawtoothState {
    pub phase: nat,
    pub step: nat,
    pub volume: U4F4,
}

impl SawtoothState {
    /// Silent, at phase 0.
    pub open spec fn new() -> SawtoothState {
        SawtoothState { phase: 0, step: 0, volume: U4F4 { bits: 0 } }
    }

    /// The sample at the current phase.
    pub open spec fn sample(self) -> int {
        saw_sample(self.phase as int, self.volume.bits as int)
    }

    /// The oscillator one sample later.
    pub open spec fn advanced(self) -> SawtoothState {
        SawtoothState { phase: ((self.phase + self.step) % 0x1_0000_0000) as nat, ..self }
    }

    /// The oscillator playing `freq` at `volume`, at the same phase.
    pub open spec fn tuned(self, freq: U12F4, volume: U4F4) -> SawtoothState {
        SawtoothState { step: phase_step(freq.bits as int) as nat, volume, ..self }
    }
}

/// Sawtooth oscillator with a phase accumulator.
#[derive(Clone, Copy, Debug)]
pub struct SawtoothSynth {
    phase: u32,
    step: u32,
    volume: U4F4,
}

impl View for SawtoothSynth {
    type V = SawtoothState;

    closed spec fn view(&self) -> SawtoothState {
        SawtoothState { phase: self.phase as nat, step: self.step as nat, volume: self.volume }
    }
}

impl SawtoothSynth {
    pub fn new() -> (r: SawtoothSynth)
        ensures
            r@ == SawtoothState::new(),
    {
        SawtoothSynth { phase: 0, step: 0, volume: U4F4 { bits: 0 } }
    }

    pub fn freq(&mut self, freq: U12F4)
        ensures
            final(self)@ == old(self)@.tuned(freq, old(self)@.volume),
    {
        assert(freq.bits as int * 0x1000_0000 <= 0xFFFF * 0x1000_0000) by (nonlinear_arith)
            requires
                freq.bits <= 0xFFFF,
        ;
        let scaled: u64 = freq.bits as u64 * 0x1000_0000;
        proof {
            lemma_div_is_ordered(scaled as int, 0xFFFFint * 0x1000_0000, SAMPLE_RATE as int);
            lemma_fundamental_div_mod_converse(
                0xFFFFint * 0x1000_0000,
                SAMPLE_RATE as int,
                366_498_283,
                24_960,
            );
        }
        self.step = (scaled / SAMPLE_RATE as u64) as u32;
    }

    pub fn attack(&mut self, volume: U4F4)
        ensures
            final(self)@ == (SawtoothState { volume, ..old(self)@ }),
    {
        self.volume = volume;
    }

    /// The sample at the current phase; the phase then advances by one
    /// step, wrapping around at the end of the period.
    pub fn next(&mut self) -> (r: I1F15)
        ensures
            r.bits == old(self)@.sample(),
            final(self)@ == old(self)@.advanced(),
    {
        let p: u32 = self.phase / 0x1_0000;
        let vol: u32 = self.volume.bits as u32;
        assert(p as int * vol as int <= 0xFFFF * 0xFF) by (nonlinear_arith)
            requires
                p <= 0xFFFF,
                vol <= 0xFF,
        ;
        let v: i32 = (p * vol / 16) as i32 - 2048 * vol as i32;
        let clipped: i16 = if v < -0x8000 {
            -0x8000
        } else if v > 0x7FFF {
            0x7FFF
        } else {
            v as i16
        };
        self.phase = self.phase.wrapping_add(self.step);
        I1F15 { bits: clipped }
    }
}

/// Output of a one-pole low-pass filter: `y + alpha * (x - y)`, with the
/// product rounded down; `alpha` in 1/32768.
pub open spec fn smooth(y: int, alpha: int, x: int) -> int {
    y + (alpha * (x - y)) / 0x8000
}

proof fn lemma_smooth_between(y: int, alpha: int, x: int)
    requires
        0 <= alpha < 0x8000,
    ensures
        y <= x ==> y <= smooth(y, alpha, x) <= x,
        x < y ==> x <= smooth(y, alpha, x) <= y,
{
    let d = x - y;
    if d >= 0 {
        assert(0 <= alpha * d <= 0x8000 * d) by (nonlinear_arith)
            requires
                0 <= alpha < 0x8000,
                d >= 0,
        ;
        assert((alpha * d) / 0x8000 <= d) by (nonlinear_arith)
            requires
                0 <= alpha * d <= 0x8000 * d,
        ;
        assert((alpha * d) / 0x8000 >= 0) by (nonlinear_arith)
            requires
                0 <= alpha * d,
        ;
    } else {
        assert(0x8000 * d <= alpha * d <= 0) by (nonlinear_arith)
            requires
                0 <= alpha < 0x8000,
                d < 0,
        ;
        assert((alpha * d) / 0x8000 >= d) by (nonlinear_arith)
            requires
                0x8000 * d <= alpha * d,
        ;
        assert((alpha * d) / 0x8000 <= 0) by (nonlinear_arith)
            requires
                alpha * d <= 0,
        ;
    }
}

/// What a filter holds: its smoothing coefficient (in 1/32768) and its
/// previous output.
pub struct FilterState {
    pub alpha: int,
    pub last: int,
}

impl FilterState {
    /// The smoothing coefficient lies in [0, 1).
    pub open spec fn wf(self) -> bool {
        0 <= self.alpha < 0x8000
    }

    /// The output for input `x`.
    pub open spec fn output_for(self, x: int) -> int {
        smooth(self.last, self.alpha, x)
    }

    /// The filter after it has output `y`.
    pub open spec fn after_output(self, y: int) -> FilterState {
        FilterState { last: y, ..self }
    }

    pub open spec fn with_alpha(self, alpha: int) -> FilterState {
        FilterState { alpha, ..self }
    }
}

/// One-pole low-pass filter.
#[derive(Clone, Copy, Debug)]
pub struct LowPassFilter {
    alpha: I1F15,
    last: i16,
}

impl View for LowPassFilter {
    type V = FilterState;

    closed spec fn view(&self) -> FilterState {
        FilterState { alpha: self.alpha.bits as int, last: self.last as int }
    }
}

impl LowPassFilter {
    /// A filter with smoothing coefficient `alpha` (higher filters less)
    /// whose previous output is 0.
    pub fn new(alpha: I1F15) -> (r: LowPassFilter)
        requires
            alpha.bits >= 0,
        ensures
            r@ == (FilterState { alpha: alpha.bits as int, last: 0 }),
            r@.wf(),
    {
        LowPassFilter { alpha, last: 0 }
    }

    pub fn set_alpha(&mut self, alpha: I1F15)
        requires
            alpha.bits >= 0,
        ensures
            final(self)@ == old(self)@.with_alpha(alpha.bits as int),
            final(self)@.wf(),
    {
        self.alpha = alpha;
    }

    /// Filters one sample.
    pub fn next(&mut self, x: I1F15) -> (r: I1F15)
        requires
            old(self)@.wf(),
        ensures
            r.bits == old(self)@.output_for(x.bits as int),
            final(self)@ == old(self)@.after_output(r.bits as int),
    {
        let y = self.last as i64;
        let a = self.alpha.bits as i64;
        let d: i64 = x.bits as i64 - y;
        assert(-0x8000 * 0xFFFF <= a * d <= 0x7FFF * 0xFFFF) by (nonlinear_arith)
            requires
                0 <= a < 0x8000,
                -0xFFFF <= d <= 0xFFFF,
        ;
        let prod: i64 = a * d;
        // Shifted by a multiple of 0x8000 so that the division rounds down.
        let q: i64 = (prod + 0x8000_0000) / 0x8000 - 0x1_0000;
        assert(q == (a * d) / 0x8000) by (nonlinear_arith)
            requires
                prod == a * d,
                prod + 0x8000_0000 >= 0,
                q == (prod + 0x8000_0000) / 0x8000 - 0x1_0000,
        ;
        proof {
            lemma_smooth_between(y as int, a as int, x.bits as int);
        }
        let out = (y + q) as i16;
        self.last = out;
        I1F15 { bits: out }
    }
}

/// Smoothing coefficient of the voice's filter: 0.01 in 1/32768.
pub const DEFAULT_FILTER_ALPHA_BITS: i16 = 328;

/// A parameter change carried by a `Reconfigure` command.
///
/// Payload layout: bits 16 to 23 name the parameter, bits 0 to 15 hold its
/// value. Parameter 0 is the filter's smoothing coefficient, in 1/32768,
/// below 0x8000.
#[derive(Clone, Copy, Debug, PartialEq, Eq, Structural)]
pub enum TrumpetSynthCommand {
    FilterAlpha(I1F15),
}

pub const PARAMETER_FILTER_ALPHA: u32 = 0;

impl TrumpetSynthCommand {
    /// The parameter change that a payload carries, if it names a known
    /// parameter with a value in range.
    pub open spec fn of_payload(payload: u32) -> Option<TrumpetSynthCommand> {
        let parameter = (payload >> 16u32) & 0xFFu32;
        let value = payload & 0xFFFFu32;
        if parameter == PARAMETER_FILTER_ALPHA && value < 0x8000 {
            Some(TrumpetSynthCommand::FilterAlpha(I1F15 { bits: value as i16 }))
        } else {
            None
        }
    }

    pub open spec fn payload(self) -> u32 {
        match self {
            TrumpetSynthCommand::FilterAlpha(a) => (PARAMETER_FILTER_ALPHA << 16u32) | (
            a.bits as u32),
        }
    }

    /// The change is within range: a smoothing coefficient in [0, 1).
    pub open spec fn encodable(self) -> bool {
        match self {
            TrumpetSynthCommand::FilterAlpha(a) => a.bits >= 0,
        }
    }

    pub fn deserialize(command_serialized: u32) -> (r: Option<TrumpetSynthCommand>)
        ensures
            r == TrumpetSynthCommand::of_payload(command_serialized),
    {
        let parameter: u32 = (command_serialized >> 16u32) & 0xFF;
        let value: u32 = command_serialized & 0xFFFF;
        if parameter == PARAMETER_FILTER_ALPHA && value < 0x8000 {
            Some(TrumpetSynthCommand::FilterAlpha(I1F15 { bits: value as i16 }))
        } else {
            None
        }
    }

    pub fn serialize(&self) -> (r: u32)
        requires
            self.encodable(),
        ensures
            r == self.payload(),
            r < 0x100_0000,
    {
        match self {
            TrumpetSynthCommand::FilterAlpha(a) => {
                let v: u32 = a.bits as u32;
                assert((PARAMETER_FILTER_ALPHA << 16u32) | v == v) by (bit_vector)
                    requires
                        PARAMETER_FILTER_ALPHA == 0u32,
                ;
                v
            },
        }
    }
}

/// What the voice holds: its address, its oscillator and its
/// filter.
pub struct SynthState {
    pub address: u32,
    pub oscillator: SawtoothState,
    pub filter: FilterState,
}

impl SynthState {
    /// A silent voice at `address` with the default filter.
    pub open spec fn new(address: u32) -> SynthState {
        SynthState {
            address,
            oscillator: SawtoothState::new(),
            filter: FilterState { alpha: DEFAULT_FILTER_ALPHA_BITS as int, last: 0 },
        }
    }

    pub open spec fn wf(self) -> bool {
        self.filter.wf()
    }

    /// The sample the voice produces next: the oscillator's sample passed
    /// through the filter.
    pub open spec fn sample(self) -> int {
        self.filter.output_for(self.oscillator.sample())
    }

    /// The voice after it has produced its next sample.
    pub open spec fn after_sample(self) -> SynthState {
        SynthState {
            oscillator: self.oscillator.advanced(),
            filter: self.filter.after_output(self.sample()),
            ..self
        }
    }

    /// The voice after `c`: a frequency command retunes the oscillator, a
    /// reconfiguration that carries a known parameter change applies it;
    /// any other reconfiguration changes nothing.
    pub open spec fn after_command(self, c: Command) -> SynthState {
        match c.message {
            CommandMessage::Frequency(f, v) => SynthState {
                oscillator: self.oscillator.tuned(f, v),
                ..self
            },
            CommandMessage::Reconfigure(p) => match TrumpetSynthCommand::of_payload(p) {
                Some(TrumpetSynthCommand::FilterAlpha(a)) => SynthState {
                    filter: self.filter.with_alpha(a.bits as int),
                    ..self
                },
                None => self,
            },
        }
    }

    /// The samples of the next `n` calls of `next`, and the voice after them.
    pub open spec fn render(self, n: nat) -> (SynthState, Seq<int>)
        decreases n,
    {
        if n == 0 {
            (self, Seq::empty())
        } else {
            let (s, out) = self.render((n - 1) as nat);
            (s.after_sample(), out.push(s.sample()))
        }
    }
}

/// The instrument's voice: a sawtooth oscillator followed by a low-pass
/// filter, driven by commands.
#[derive(Clone, Copy, Debug)]
pub struct TrumpetSynth {
    address: u32,
    sawtooth: SawtoothSynth,
    lpf: LowPassFilter,
}

impl View for TrumpetSynth {
    type V = SynthState;

    closed spec fn view(&self) -> SynthState {
        SynthState { address: self.address, oscillator: self.sawtooth@, filter: self.lpf@ }
    }
}

/// The voice at address 0.
pub fn create() -> (r: TrumpetSynth)
    ensures
        r@ == SynthState::new(0),
        r@.wf(),
{
    TrumpetSynth::make(0x0)
}

impl TrumpetSynth {
    /// The voice at `address`, silent, with the default filter.
    pub fn make(address: u32) -> (r: TrumpetSynth)
        ensures
            r@ == SynthState::new(address),
            r@.wf(),
    {
        TrumpetSynth {
            address,
            sawtooth: SawtoothSynth::new(),
            lpf: LowPassFilter::new(I1F15 { bits: DEFAULT_FILTER_ALPHA_BITS }),
        }
    }

    pub fn freq(&mut self, freq: U12F4)
        ensures
            final(self)@ == (SynthState {
                oscillator: old(self)@.oscillator.tuned(freq, old(self)@.oscillator.volume),
                ..old(self)@
            }),
    {
        self.sawtooth.freq(freq);
    }

    pub fn attack(&mut self, attack: U4F4)
        ensures
            final(self)@ == (SynthState {
                oscillator: SawtoothState { volume: attack, ..old(self)@.oscillator },
                ..old(self)@
            }),
    {
        self.sawtooth.attack(attack);
    }

    /// The next sample: one oscillator sample passed through the filter.
    pub fn next(&mut self) -> (r: I1F15)
        requires
            old(self)@.wf(),
        ensures
            r.bits == old(self)@.sample(),
            final(self)@ == old(self)@.after_sample(),
            final(self)@.wf(),
    {
        let sample = self.sawtooth.next();
        self.lpf.next(sample)
    }

    /// Applies one command.
    pub fn run_command(&mut self, command: Command)
        requires
            old(self)@.wf(),
        ensures
            final(self)@ == old(self)@.after_command(command),
            final(self)@.wf(),
    {
        match command.message {
            CommandMessage::Frequency(freq, volume) => {
                self.sawtooth.freq(freq);
                self.sawtooth.attack(volume);
            },
            CommandMessage::Reconfigure(command_serialized) => {
                if let Some(TrumpetSynthCommand::FilterAlpha(alpha)) =
                    TrumpetSynthCommand::deserialize(command_serialized) {
                    self.lpf.set_alpha(alpha);
                }
            },
        }
    }

    /// The address of this voice.
    pub fn address(&self) -> (r: u32)
        ensures
            r == self@.address,
    {
        self.address
    }
}

/// Every parameter change within range comes back unchanged from its
/// payload.
pub proof fn lemma_synth_command_round_trip(c: TrumpetSynthCommand)
    requires
        c.encodable(),
    ensures
        TrumpetSynthCommand::of_payload(c.payload()) == Some(c),
{
    match c {
        TrumpetSynthCommand::FilterAlpha(a) => {
            let v = a.bits as u32;
            assert(0 <= a.bits < 0x8000);
            assert(v < 0x8000);
            assert((0u32 << 16u32) | v == v) by (bit_vector);
            assert(((v >> 16u32) & 0xFFu32) == 0 && (v & 0xFFFFu32) == v) by (bit_vector)
                requires
                    v < 0x8000,
            ;
        },
    }
}

} // verus!
