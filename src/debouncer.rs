//! Hysteresis filter that turns a noisy boolean input into a stable one.
use vstd::prelude::*;

verus! {

/// What a debouncer holds: its threshold, the accepted value (`None` before
/// the first one), and the candidate value with the number of ticks in a
/// row it has been read.
pub struct DebouncerState {
    pub threshold: nat,
    pub stable: Option<bool>,
    pub candidate: bool,
    pub count: nat,
}

impl DebouncerState {
    /// A debouncer that has accepted nothing yet.
    pub open spec fn new(threshold: nat) -> DebouncerState {
        DebouncerState { threshold, stable: None, candidate: false, count: 0 }
    }

    /// A pending count never reaches the threshold: it is accepted first.
    pub open spec fn wf(self) -> bool {
        self.count == 0 || self.count < self.threshold
    }

    /// The debouncer after one raw reading. A reading equal to the accepted
    /// value clears the count; any other reading extends the run of its
    /// value (or starts one), and a run that reaches the threshold is
    /// accepted.
    pub open spec fn step(self, raw: bool) -> DebouncerState {
        if self.stable == Some(raw) {
            DebouncerState { count: 0, ..self }
        } else {
            let count: nat = if self.count > 0 && self.candidate == raw {
                self.count + 1
            } else {
                1
            };
            if count >= self.threshold {
                DebouncerState { stable: Some(raw), candidate: raw, count: 0, ..self }
            } else {
                DebouncerState { candidate: raw, count, ..self }
            }
        }
    }

    /// The debouncer after the readings of `s`, oldest first.
    pub open spec fn feed(self, s: Seq<bool>) -> DebouncerState
        decreases s.len(),
    {
        if s.len() == 0 {
            self
        } else {
            self.feed(s.drop_last()).step(s.last())
        }
    }
}

/// Stabilises one boolean input: a new value is accepted only after it has
/// been read for `threshold` ticks in a row.
#[derive(Clone, Copy, Debug)]
pub struct Debouncer {
    threshold: u32,
    stable: Option<bool>,
    candidate: bool,
    count: u32,
}

impl View for Debouncer {
    type V = DebouncerState;

    closed spec fn view(&self) -> DebouncerState {
        DebouncerState {
            threshold: self.threshold as nat,
            stable: self.stable,
            candidate: self.candidate,
            count: self.count as nat,
        }
    }
}

impl Debouncer {
    pub fn new(threshold: u32) -> (r: Debouncer)
        ensures
            r@ == DebouncerState::new(threshold as nat),
    {
        Debouncer { threshold, stable: None, candidate: false, count: 0 }
    }

    /// Feeds one raw reading.
    pub fn update(&mut self, raw: bool)
        requires
            old(self)@.wf(),
        ensures
            final(self)@ == old(self)@.step(raw),
            final(self)@.wf(),
    {
        if self.stable == Some(raw) {
            self.count = 0;
        } else {
            let count: u32 = if self.count > 0 && self.candidate == raw {
                self.count + 1
            } else {
                1
            };
            self.candidate = raw;
            if count >= self.threshold {
                self.stable = Some(raw);
                self.count = 0;
            } else {
                self.count = count;
            }
        }
    }

    /// The accepted value; `None` until a value has been accepted.
    pub fn is_high(&self) -> (r: Option<bool>)
        ensures
            r == self@.stable,
    {
        self.stable
    }
}

proof fn lemma_step_wf(d: DebouncerState, raw: bool)
    requires
        d.wf(),
    ensures
        d.step(raw).wf(),
        d.step(raw).threshold == d.threshold,
{
}

proof fn lemma_feed_wf(d: DebouncerState, s: Seq<bool>)
    requires
        d.wf(),
    ensures
        d.feed(s).wf(),
        d.feed(s).threshold == d.threshold,
    decreases s.len(),
{
    if s.len() > 0 {
        lemma_feed_wf(d, s.drop_last());
        lemma_step_wf(d.feed(s.drop_last()), s.last());
    }
}

/// With a threshold of 0 every reading is accepted at once.
pub proof fn lemma_zero_threshold_passes_through(d: DebouncerState, raw: bool)
    requires
        d.wf(),
        d.threshold == 0,
    ensures
        d.step(raw).stable == Some(raw),
{
}

/// `n` readings of the same value.
pub open spec fn held(raw: bool, n: nat) -> Seq<bool> {
    Seq::new(n, |i: int| raw)
}

proof fn lemma_hold_progress(d: DebouncerState, raw: bool, n: nat)
    requires
        d.wf(),
        n >= 1,
    ensures
        d.feed(held(raw, n)).stable == Some(raw) || (d.feed(held(raw, n)).candidate == raw
            && d.feed(held(raw, n)).count >= n),
    decreases n,
{
    let s = held(raw, n);
    assert(s.drop_last() =~= held(raw, (n - 1) as nat));
    lemma_feed_wf(d, s.drop_last());
    if n > 1 {
        lemma_hold_progress(d, raw, (n - 1) as nat);
    }
}

/// A raw input held at one value for at least `threshold` ticks (and for at
/// least one tick) makes the debounced output that value.
pub proof fn lemma_hold_is_accepted(d: DebouncerState, raw: bool, n: nat)
    requires
        d.wf(),
        n >= d.threshold,
        n >= 1,
    ensures
        d.feed(held(raw, n)).stable == Some(raw),
{
    lemma_hold_progress(d, raw, n);
    lemma_feed_wf(d, held(raw, n));
}

/// Length of the run of equal readings at the end of `s`.
pub open spec fn trailing_hold(s: Seq<bool>) -> nat
    decreases s.len(),
{
    if s.len() == 0 {
        0
    } else if s.len() >= 2 && s[s.len() - 1] == s[s.len() - 2] {
        trailing_hold(s.drop_last()) + 1
    } else {
        1
    }
}

/// Every run of equal readings in `s` is shorter than `t` ticks.
pub open spec fn holds_shorter_than(s: Seq<bool>, t: nat) -> bool {
    forall|n: int| 1 <= n <= s.len() ==> trailing_hold(#[trigger] s.take(n)) < t
}

proof fn lemma_short_holds_invariant(d: DebouncerState, s: Seq<bool>)
    requires
        d.wf(),
        d.count == 0,
        holds_shorter_than(s, d.threshold),
    ensures
        d.feed(s).stable == d.stable,
        d.feed(s).count == 0 || (s.len() > 0 && d.feed(s).candidate == s.last()
            && d.feed(s).count <= trailing_hold(s)),
    decreases s.len(),
{
    if s.len() > 0 {
        let p = s.drop_last();
        assert forall|n: int| 1 <= n <= p.len() implies trailing_hold(#[trigger] p.take(n))
            < d.threshold by {
            assert(p.take(n) =~= s.take(n));
        }
        lemma_short_holds_invariant(d, p);
        lemma_feed_wf(d, p);
        assert(s.take(s.len() as int) =~= s);
        assert(s.drop_last() =~= p);
    }
}

/// Once nothing is pending (on a new debouncer, and right after a value is
/// accepted), readings whose runs are all shorter than `threshold` ticks never
/// change the debounced output, at any point along the way.
pub proof fn lemma_short_holds_keep_output(d: DebouncerState, s: Seq<bool>)
    requires
        d.wf(),
        d.count == 0,
        holds_shorter_than(s, d.threshold),
    ensures
        forall|n: int|
            0 <= n <= s.len() ==> (#[trigger] d.feed(s.take(n))).stable
                == d.stable,
{
    assert forall|n: int| 0 <= n <= s.len() implies (#[trigger] d.feed(s.take(n))).stable
        == d.stable by {
        let p = s.take(n);
        assert forall|m: int| 1 <= m <= p.len() implies trailing_hold(#[trigger] p.take(m))
            < d.threshold by {
            assert(p.take(m) =~= s.take(m));
        }
        lemma_short_holds_invariant(d, p);
    }
}

} // verus!
