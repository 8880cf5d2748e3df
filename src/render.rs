//! The audio side's work per output buffer: applying received command
//! words, filling the buffer, and noticing a missed deadline.
use crate::commands::Command;
use crate::fixed_point::I1F15;
use crate::synth::{SynthState, TrumpetSynth};
use vstd::prelude::*;

verus! {

/// Transport word for one output slot: the sample's upper twelve bits,
/// sign-extended to sixteen, in the upper half of the word.
pub open spec fn frame_word_spec(sample: int) -> int {
    ((sample / 16) % 0x1_0000) * 0x1_0000
}

pub fn frame_word(sample: I1F15) -> (r: u32)
    ensures
        r == frame_word_spec(sample.bits as int),
{
    let high: i32 = (sample.bits as i32 + 0x8000) / 16 - 0x800;
    assert(high == sample.bits as int / 16);
    let half: u32 = if high >= 0 {
        high as u32
    } else {
        (high + 0x1_0000) as u32
    };
    assert(half == (sample.bits as int / 16) % 0x1_0000);
    half * 0x1_0000
}

/// Fills `buf` with stereo frames: each new sample of `synth` goes into an
/// even slot and the odd slot after it.
pub fn fill_buffer<const N: usize>(synth: &mut TrumpetSynth, buf: &mut [u32; N])
    requires
        old(synth)@.wf(),
    ensures
        final(synth)@.wf(),
        final(synth)@ == old(synth)@.render(((N + 1) / 2) as nat).0,
        forall|k: int|
            0 <= k < N ==> final(buf)@[k] == frame_word_spec(
                #[trigger] old(synth)@.render(((N + 1) / 2) as nat).1[k / 2],
            ),
{
    let ghost start = synth@;
    let mut sample = I1F15 { bits: 0 };
    let mut i: usize = 0;
    while i < N
        invariant
            i <= N,
            synth@.wf(),
            synth@ == start.render(((i + 1) / 2) as nat).0,
            i % 2 == 1 ==> sample.bits == start.render(((i + 1) / 2) as nat).1[(i / 2) as int],
            forall|k: int|
                0 <= k < i ==> buf@[k] == frame_word_spec(
                    #[trigger] start.render(((i + 1) / 2) as nat).1[k / 2],
                ),
        decreases N - i,
    {
        let ghost n = ((i + 1) / 2) as nat;
        proof {
            lemma_render_len(start, n);
            lemma_render_len(start, n + 1);
        }
        if i % 2 == 0 {
            sample = synth.next();
            assert(start.render(n + 1).1 == start.render(n).1.push(sample.bits as int));
        }
        buf[i] = frame_word(sample);
        i = i + 1;
    }
}

proof fn lemma_render_len(s: SynthState, n: nat)
    ensures
        s.render(n).1.len() == n,
    decreases n,
{
    if n > 0 {
        lemma_render_len(s, (n - 1) as nat);
    }
}

/// Applies the word read from the channel, if one was there and it holds a
/// command; other words are dropped.
pub fn apply_word(synth: &mut TrumpetSynth, word: Option<u32>)
    requires
        old(synth)@.wf(),
    ensures
        final(synth)@.wf(),
        final(synth)@ == match word {
            Some(w) => match Command::of_word(w) {
                Some(c) => old(synth)@.after_command(c),
                None => old(synth)@,
            },
            None => old(synth)@,
        },
{
    if let Some(w) = word {
        if let Some(command) = Command::deserialize(w) {
            synth.run_command(command);
        }
    }
}

/// Notices, once, that the output transfer finished before the next buffer
/// was ready.
#[derive(Clone, Copy, Debug, PartialEq, Eq, Structural)]
pub struct DeadlineMonitor {
    pub warned: bool,
}

impl DeadlineMonitor {
    pub fn new() -> (r: DeadlineMonitor)
        ensures
            !r.warned,
    {
        DeadlineMonitor { warned: false }
    }

    /// Whether to report lateness now: the first time the transfer is found
    /// already done, and never again.
    pub fn check(&mut self, transfer_done: bool) -> (r: bool)
        ensures
            r == (!old(self).warned && transfer_done),
            final(self).warned == (old(self).warned || transfer_done),
    {
        if !self.warned && transfer_done {
            self.warned = true;
            true
        } else {
            false
        }
    }
}

} // verus!
