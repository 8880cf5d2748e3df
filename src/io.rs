//! What the instrument reads from and writes to: raw inputs and the
//! transport channel.
use crate::fixed_point::U0F16;
use crate::trumpet::{BlowStrength, Embouchure, Valve};
use vstd::prelude::*;

verus! {

/// The two collaborators of the control side.
pub struct IO<FIFO, INPUTS> {
    pub fifo: FIFO,
    pub inputs: INPUTS,
}

impl<FIFO, INPUTS> IO<FIFO, INPUTS> where FIFO: Fifo, INPUTS: Inputs {
    pub fn new(fifo: FIFO, inputs: INPUTS) -> (r: Self)
        ensures
            r.fifo == fifo,
            r.inputs == inputs,
    {
        Self { fifo, inputs }
    }
}

/// The sending end of the transport channel: one word per write.
pub trait Fifo {
    /// The words written so far, oldest first.
    spec fn written(&self) -> Vec<u32>;

    fn write(&mut self, value: u32)
        ensures
            final(self).written()@ == old(self).written()@.push(value),
    ;
}

/// Raw readings, each taken fresh when asked for.
pub trait Inputs {
    /// What the inputs read at this moment.
    spec fn readings(&self) -> TrumpetInputState;

    /// Whether `valve` is pressed.
    fn valve(&mut self, valve: Valve) -> (r: bool)
        ensures
            r == old(self).readings().valve_spec(valve),
            final(self).readings() == old(self).readings(),
    ;

    /// Whether the player blows.
    fn blow(&mut self) -> (r: bool)
        ensures
            r == old(self).readings().blow,
            final(self).readings() == old(self).readings(),
    ;

    fn embouchure(&mut self) -> (r: Embouchure)
        ensures
            r == old(self).readings().embouchure,
            final(self).readings() == old(self).readings(),
    ;

    fn blowstrength(&mut self) -> (r: BlowStrength)
        ensures
            r == old(self).readings().blowstrength,
            final(self).readings() == old(self).readings(),
    ;
}

/// A 12-bit converter reading as a fraction of full scale: the reading moved
/// to the top of 16 bits.
pub fn convert_adc_value(read: u16) -> (r: U0F16)
    ensures
        r.bits == (read as int * 16) % 0x1_0000,
{
    U0F16 { bits: ((read as u32 * 16) % 0x1_0000) as u16 }
}

/// All inputs, read once in one tick.
#[derive(Clone, Copy, Debug, PartialEq, Eq, Structural)]
pub struct TrumpetInputState {
    pub first: bool,
    pub second: bool,
    pub third: bool,
    pub blow: bool,
    pub embouchure: Embouchure,
    pub blowstrength: BlowStrength,
}

impl Default for TrumpetInputState {
    fn default() -> (r: TrumpetInputState)
        ensures
            r == TrumpetInputState::released(),
    {
        TrumpetInputState {
            first: false,
            second: false,
            third: false,
            blow: false,
            embouchure: U0F16 { bits: 0 },
            blowstrength: U0F16 { bits: 0 },
        }
    }
}

impl TrumpetInputState {
    /// Nothing pressed, no breath, both potentiometers at 0.
    pub open spec fn released() -> TrumpetInputState {
        TrumpetInputState {
            first: false,
            second: false,
            third: false,
            blow: false,
            embouchure: U0F16 { bits: 0 },
            blowstrength: U0F16 { bits: 0 },
        }
    }

    pub open spec fn valve_spec(self, id: Valve) -> bool {
        match id {
            Valve::First => self.first,
            Valve::Second => self.second,
            Valve::Third => self.third,
        }
    }

    /// Reads every input once, the valves first.
    pub fn read_from<I: Inputs>(inputs: &mut I) -> (r: Self)
        ensures
            r == old(inputs).readings(),
            final(inputs).readings() == old(inputs).readings(),
    {
        let first = inputs.valve(Valve::First);
        let second = inputs.valve(Valve::Second);
        let third = inputs.valve(Valve::Third);
        let blow = inputs.blow();
        let embouchure = inputs.embouchure();
        let blowstrength = inputs.blowstrength();
        Self { first, second, third, blow, embouchure, blowstrength }
    }

    pub fn valves(&self) -> (r: [bool; 3])
        ensures
            r@ == seq![self.first, self.second, self.third],
    {
        let r = [self.first, self.second, self.third];
        assert(r@ =~= seq![self.first, self.second, self.third]);
        r
    }

    pub fn valve(&self, id: Valve) -> (r: bool)
        ensures
            r == self.valve_spec(id),
    {
        match id {
            Valve::First => self.first,
            Valve::Second => self.second,
            Valve::Third => self.third,
        }
    }
}

} // verus!
