//! From raw input readings to the events of one tick, and the control loop
//! that turns those events into command words.
use crate::debouncer::{
    held,
    holds_shorter_than,
    lemma_hold_is_accepted,
    lemma_short_holds_keep_output,
    Debouncer,
    DebouncerState,
};
use crate::fixed_point::U0F16;
use crate::io::{Fifo, Inputs, TrumpetInputState, IO};
use crate::lists::{
    clear_event_list,
    command_items,
    command_slice,
    event_items,
    event_slice,
    new_event_list,
    push_event,
};
use crate::commands::Command;
use crate::trumpet::{
    bflat_trumpet,
    bflat_trumpet_spec,
    BlowStrength,
    Embouchure,
    Trumpet,
    TrumpetState,
    Valve,
};
use vstd::prelude::*;

verus! {

/// A change of the player's input between two ticks.
#[derive(Clone, Copy, Debug, PartialEq, Eq, Structural)]
pub enum TrumpetEvent {
    BlowUp,
    BlowDown,
    ValveUp(Valve),
    ValveDown(Valve),
    EmbouchureChange(Embouchure),
    BlowStrengthChange(BlowStrength),
}

/// Potentiometer movement (in 1/65536) that counts as noise.
pub const POT_THRESHOLD_BITS: u16 = 20;

/// A potentiometer moved by more than the noise threshold.
pub open spec fn moved(last: U0F16, current: U0F16) -> bool {
    last.bits - current.bits > POT_THRESHOLD_BITS || current.bits - last.bits
        > POT_THRESHOLD_BITS
}

/// The event for an edge of a valve, if there is one.
pub open spec fn valve_edge(v: Valve, was: bool, now: bool) -> Seq<TrumpetEvent> {
    if !was && now {
        seq![TrumpetEvent::ValveDown(v)]
    } else if was && !now {
        seq![TrumpetEvent::ValveUp(v)]
    } else {
        Seq::empty()
    }
}

/// The event for an edge of the breath switch, if there is one.
pub open spec fn blow_edge(was: bool, now: bool) -> Seq<TrumpetEvent> {
    if !was && now {
        seq![TrumpetEvent::BlowDown]
    } else if was && !now {
        seq![TrumpetEvent::BlowUp]
    } else {
        Seq::empty()
    }
}

/// `e` if `happened`, otherwise nothing.
pub open spec fn event_if(happened: bool, e: TrumpetEvent) -> Seq<TrumpetEvent> {
    if happened {
        seq![e]
    } else {
        Seq::empty()
    }
}

/// The events from one reading to the next: valve edges in valve order,
/// then the breath edge, then breath strength and embouchure changes.
#[verifier::opaque]
pub open spec fn diff_events(last: TrumpetInputState, current: TrumpetInputState) -> Seq<
    TrumpetEvent,
> {
    valve_edge(Valve::First, last.first, current.first)
        + valve_edge(Valve::Second, last.second, current.second)
        + valve_edge(Valve::Third, last.third, current.third)
        + blow_edge(last.blow, current.blow)
        + event_if(
        moved(last.blowstrength, current.blowstrength),
        TrumpetEvent::BlowStrengthChange(current.blowstrength),
    ) + event_if(
        moved(last.embouchure, current.embouchure),
        TrumpetEvent::EmbouchureChange(current.embouchure),
    )
}

/// Whether going from `last` to `current` calls for event `e`.
pub open spec fn called_for(
    last: TrumpetInputState,
    current: TrumpetInputState,
    e: TrumpetEvent,
) -> bool {
    match e {
        TrumpetEvent::ValveDown(v) => !last.valve_spec(v) && current.valve_spec(v),
        TrumpetEvent::ValveUp(v) => last.valve_spec(v) && !current.valve_spec(v),
        TrumpetEvent::BlowDown => !last.blow && current.blow,
        TrumpetEvent::BlowUp => last.blow && !current.blow,
        TrumpetEvent::EmbouchureChange(x) => moved(last.embouchure, current.embouchure) && x
            == current.embouchure,
        TrumpetEvent::BlowStrengthChange(x) => moved(last.blowstrength, current.blowstrength)
            && x == current.blowstrength,
    }
}

proof fn lemma_contains_concat(a: Seq<TrumpetEvent>, b: Seq<TrumpetEvent>, x: TrumpetEvent)
    ensures
        (a + b).contains(x) <==> a.contains(x) || b.contains(x),
{
    if a.contains(x) {
        let i = choose|i: int| 0 <= i < a.len() && a[i] == x;
        assert((a + b)[i] == x);
    }
    if b.contains(x) {
        let i = choose|i: int| 0 <= i < b.len() && b[i] == x;
        assert((a + b)[a.len() + i] == x);
    }
    if (a + b).contains(x) {
        let i = choose|i: int| 0 <= i < (a + b).len() && (a + b)[i] == x;
        if i < a.len() {
            assert(a[i] == x);
        } else {
            assert(b[i - a.len()] == x);
        }
    }
}

proof fn lemma_contains_single(y: TrumpetEvent, x: TrumpetEvent)
    ensures
        seq![y].contains(x) <==> x == y,
        !Seq::<TrumpetEvent>::empty().contains(x),
{
    if x == y {
        assert(seq![y][0] == x);
    }
}

proof fn lemma_valve_edge_contains(v: Valve, was: bool, now: bool, e: TrumpetEvent)
    ensures
        valve_edge(v, was, now).contains(e) <==> (e == TrumpetEvent::ValveDown(v) && !was && now)
            || (e == TrumpetEvent::ValveUp(v) && was && !now),
{
    lemma_contains_single(TrumpetEvent::ValveDown(v), e);
    lemma_contains_single(TrumpetEvent::ValveUp(v), e);
}

proof fn lemma_blow_edge_contains(was: bool, now: bool, e: TrumpetEvent)
    ensures
        blow_edge(was, now).contains(e) <==> (e == TrumpetEvent::BlowDown && !was && now) || (e
            == TrumpetEvent::BlowUp && was && !now),
{
    lemma_contains_single(TrumpetEvent::BlowDown, e);
    lemma_contains_single(TrumpetEvent::BlowUp, e);
}

proof fn lemma_change_contains(c: bool, y: TrumpetEvent, e: TrumpetEvent)
    ensures
        event_if(c, y).contains(e) <==> c && e == y,
{
    lemma_contains_single(y, e);
}

#[verifier::rlimit(40)]
proof fn lemma_diff_contains(last: TrumpetInputState, current: TrumpetInputState, e: TrumpetEvent)
    ensures
        diff_events(last, current).contains(e) <==> called_for(last, current, e),
{
    let a = valve_edge(Valve::First, last.first, current.first);
    let b = valve_edge(Valve::Second, last.second, current.second);
    let c = valve_edge(Valve::Third, last.third, current.third);
    let d = blow_edge(last.blow, current.blow);
    let f = event_if(
        moved(last.blowstrength, current.blowstrength),
        TrumpetEvent::BlowStrengthChange(current.blowstrength),
    );
    let g = event_if(
        moved(last.embouchure, current.embouchure),
        TrumpetEvent::EmbouchureChange(current.embouchure),
    );
    reveal(diff_events);
    assert(diff_events(last, current) == a + b + c + d + f + g);
    lemma_contains_concat(a, b, e);
    lemma_contains_concat(a + b, c, e);
    lemma_contains_concat(a + b + c, d, e);
    lemma_contains_concat(a + b + c + d, f, e);
    lemma_contains_concat(a + b + c + d + f, g, e);
    lemma_valve_edge_contains(Valve::First, last.first, current.first, e);
    lemma_valve_edge_contains(Valve::Second, last.second, current.second, e);
    lemma_valve_edge_contains(Valve::Third, last.third, current.third, e);
    lemma_blow_edge_contains(last.blow, current.blow, e);
    lemma_change_contains(
        moved(last.blowstrength, current.blowstrength),
        TrumpetEvent::BlowStrengthChange(current.blowstrength),
        e,
    );
    lemma_change_contains(
        moved(last.embouchure, current.embouchure),
        TrumpetEvent::EmbouchureChange(current.embouchure),
        e,
    );
}

/// An event comes out of a tick exactly when the readings call for it: a
/// valve event when that valve's debounced position changed (`ValveDown`
/// when it went down, `ValveUp` when it came up), a breath event likewise,
/// and a potentiometer event, with the new value, exactly when that value
/// moved by more than the noise threshold. No more than six come out.
pub proof fn lemma_diff_events_exact(last: TrumpetInputState, current: TrumpetInputState)
    ensures
        forall|e: TrumpetEvent|
            #[trigger] diff_events(last, current).contains(e) <==> called_for(last, current, e),
        (exists|x: Embouchure|
            #[trigger] diff_events(last, current).contains(TrumpetEvent::EmbouchureChange(x)))
            <==> moved(last.embouchure, current.embouchure),
        (exists|x: BlowStrength|
            #[trigger] diff_events(last, current).contains(TrumpetEvent::BlowStrengthChange(x)))
            <==> moved(last.blowstrength, current.blowstrength),
        diff_events(last, current).len() <= 6,
{
    assert forall|e: TrumpetEvent| #[trigger]
        diff_events(last, current).contains(e) <==> called_for(last, current, e) by {
        lemma_diff_contains(last, current, e);
    }
    lemma_diff_contains(last, current, TrumpetEvent::EmbouchureChange(current.embouchure));
    lemma_diff_contains(last, current, TrumpetEvent::BlowStrengthChange(current.blowstrength));
    lemma_diff_len(last, current);
}

proof fn lemma_diff_len(last: TrumpetInputState, current: TrumpetInputState)
    ensures
        diff_events(last, current).len() <= 6,
{
    reveal(diff_events);
}

/// Whether a debouncer has accepted "pressed"; `false` while still unknown.
pub open spec fn known_high(d: DebouncerState) -> bool {
    d.stable == Some(true)
}

/// Abstraction over raw input readings: debounces the switches and turns
/// the readings of each tick into events.
pub struct TrumpetInputs<INPUTS> {
    inputs: INPUTS,
    valve_debouncers: [Debouncer; 3],
    blow_debouncer: Debouncer,
    events: heapless::Vec<TrumpetEvent, 8>,
    last_trumpet_state: TrumpetInputState,
}

impl<INPUTS: Inputs> TrumpetInputs<INPUTS> {
    pub closed spec fn inputs_spec(self) -> INPUTS {
        self.inputs
    }

    /// The debouncers of the three valves, in valve order.
    pub closed spec fn valve_debouncers_spec(self) -> Seq<DebouncerState> {
        self.valve_debouncers@.map_values(|d: Debouncer| d@)
    }

    pub closed spec fn blow_debouncer_spec(self) -> DebouncerState {
        self.blow_debouncer@
    }

    /// The events of the last tick.
    pub closed spec fn events_spec(self) -> Seq<TrumpetEvent> {
        event_items(self.events)
    }

    /// The debounced reading of the last tick.
    pub closed spec fn last_state_spec(self) -> TrumpetInputState {
        self.last_trumpet_state
    }

    pub closed spec fn wf(self) -> bool {
        &&& self.valve_debouncers[0]@.wf()
        &&& self.valve_debouncers[1]@.wf()
        &&& self.valve_debouncers[2]@.wf()
        &&& self.blow_debouncer@.wf()
    }

    /// `next` is this extractor after one tick in which `raw` was read: each
    /// switch's debouncer took its reading, the digital inputs were replaced
    /// by the debounced ones, and the events are those from the previous
    /// debounced reading to this one.
    pub open spec fn ticked(self, next: Self, raw: TrumpetInputState) -> bool {
        let d = self.valve_debouncers_spec();
        let nd = next.valve_debouncers_spec();
        let current = TrumpetInputState {
            first: known_high(nd[0]),
            second: known_high(nd[1]),
            third: known_high(nd[2]),
            blow: known_high(next.blow_debouncer_spec()),
            ..raw
        };
        &&& next.wf()
        &&& nd.len() == 3
        &&& nd[0] == d[0].step(raw.first)
        &&& nd[1] == d[1].step(raw.second)
        &&& nd[2] == d[2].step(raw.third)
        &&& next.blow_debouncer_spec() == self.blow_debouncer_spec().step(raw.blow)
        &&& next.last_state_spec() == current
        &&& next.events_spec() == diff_events(self.last_state_spec(), current)
    }

    pub fn new(inputs: INPUTS, debounce_time: u32) -> (r: Self)
        ensures
            r.wf(),
            r.inputs_spec() == inputs,
            r.valve_debouncers_spec() == seq![
                DebouncerState::new(debounce_time as nat),
                DebouncerState::new(debounce_time as nat),
                DebouncerState::new(debounce_time as nat),
            ],
            r.blow_debouncer_spec() == DebouncerState::new(debounce_time as nat),
            r.events_spec().len() == 0,
            r.last_state_spec() == TrumpetInputState::released(),
    {
        let d = Debouncer::new(debounce_time);
        let r = Self {
            inputs,
            valve_debouncers: [d, d, d],
            blow_debouncer: d,
            events: new_event_list(),
            last_trumpet_state: TrumpetInputState::default(),
        };
        assert(r.valve_debouncers_spec() =~= seq![d@, d@, d@]);
        r
    }

    fn update_debouncers(&mut self, state: TrumpetInputState)
        requires
            old(self).wf(),
        ensures
            final(self).wf(),
            final(self).valve_debouncers_spec() == seq![
                old(self).valve_debouncers[0]@.step(state.first),
                old(self).valve_debouncers[1]@.step(state.second),
                old(self).valve_debouncers[2]@.step(state.third),
            ],
            final(self).blow_debouncer@ == old(self).blow_debouncer@.step(state.blow),
            final(self).inputs == old(self).inputs,
            final(self).events == old(self).events,
            final(self).last_trumpet_state == old(self).last_trumpet_state,
    {
        let readings = state.valves();
        let mut i: usize = 0;
        while i < 3
            invariant
                i <= 3,
                readings@ == seq![state.first, state.second, state.third],
                forall|k: int|
                    0 <= k < 3 ==> (#[trigger] self.valve_debouncers[k])@.wf() && (if k < i {
                        self.valve_debouncers[k]@ == old(self).valve_debouncers[k]@.step(
                            readings@[k],
                        )
                    } else {
                        self.valve_debouncers[k] == old(self).valve_debouncers[k]
                    }),
                self.blow_debouncer == old(self).blow_debouncer,
                self.inputs == old(self).inputs,
                self.events == old(self).events,
                self.last_trumpet_state == old(self).last_trumpet_state,
                old(self).wf(),
            decreases 3 - i,
        {
            let mut d = self.valve_debouncers[i];
            d.update(readings[i]);
            self.valve_debouncers[i] = d;
            i = i + 1;
        }
        self.blow_debouncer.update(state.blow);
        assert(self.valve_debouncers_spec() =~= seq![
            old(self).valve_debouncers[0]@.step(state.first),
            old(self).valve_debouncers[1]@.step(state.second),
            old(self).valve_debouncers[2]@.step(state.third),
        ]);
    }

    /// The events of the last tick, in the order they were found.
    pub fn events(&self) -> (r: &[TrumpetEvent])
        ensures
            r@ == self.events_spec(),
    {
        event_slice(&self.events)
    }

    fn debouncer_is_high(debouncer: &Debouncer) -> (r: bool)
        ensures
            r == known_high(debouncer@),
    {
        match debouncer.is_high() {
            Some(high) => high,
            None => false,
        }
    }

    fn valve_debouncer_is_high(&self, valve: Valve) -> (r: bool)
        ensures
            r == known_high(self.valve_debouncers[valve.index_spec()]@),
    {
        let index: usize = valve.into();
        Self::debouncer_is_high(&self.valve_debouncers[index])
    }

    fn blow_debouncer_is_high(&self) -> (r: bool)
        ensures
            r == known_high(self.blow_debouncer@),
    {
        Self::debouncer_is_high(&self.blow_debouncer)
    }

    /// One tick on a reading that has already been taken: debounces it,
    /// finds the events since the previous tick and keeps it for the next.
    pub fn update_events_from(&mut self, raw: TrumpetInputState)
        requires
            old(self).wf(),
        ensures
            old(self).ticked(*final(self), raw),
            final(self).inputs_spec() == old(self).inputs_spec(),
    {
        let mut current_state = raw;
        self.update_debouncers(current_state);

        current_state.first = self.valve_debouncer_is_high(Valve::First);
        current_state.second = self.valve_debouncer_is_high(Valve::Second);
        current_state.third = self.valve_debouncer_is_high(Valve::Third);
        current_state.blow = self.blow_debouncer_is_high();

        let last = self.last_trumpet_state;
        push_diff_events(&mut self.events, last, current_state);
        self.last_trumpet_state = current_state;
    }

    /// One tick: reads every input once, then proceeds as
    /// `update_events_from` does with that reading.
    pub fn update_events(&mut self)
        requires
            old(self).wf(),
        ensures
            old(self).ticked(*final(self), old(self).inputs_spec().readings()),
            final(self).inputs_spec().readings() == old(self).inputs_spec().readings(),
    {
        let raw = TrumpetInputState::read_from(&mut self.inputs);
        self.update_events_from(raw);
    }
}

/// The reading of switch `c`: the three valves in order, then the breath
/// switch.
pub open spec fn channel(r: TrumpetInputState, c: int) -> bool {
    if c == 0 {
        r.first
    } else if c == 1 {
        r.second
    } else if c == 2 {
        r.third
    } else {
        r.blow
    }
}

/// The readings of switch `c` over `raws`.
pub open spec fn channel_readings(raws: Seq<TrumpetInputState>, c: int) -> Seq<bool> {
    raws.map_values(|r: TrumpetInputState| channel(r, c))
}

pub open spec fn valve_at(c: int) -> Valve {
    if c == 0 {
        Valve::First
    } else if c == 1 {
        Valve::Second
    } else {
        Valve::Third
    }
}

/// The event for switch `c` going down.
pub open spec fn down_event(c: int) -> TrumpetEvent {
    if c < 3 {
        TrumpetEvent::ValveDown(valve_at(c))
    } else {
        TrumpetEvent::BlowDown
    }
}

/// The event for switch `c` coming up.
pub open spec fn up_event(c: int) -> TrumpetEvent {
    if c < 3 {
        TrumpetEvent::ValveUp(valve_at(c))
    } else {
        TrumpetEvent::BlowUp
    }
}

impl<INPUTS: Inputs> TrumpetInputs<INPUTS> {
    /// The debouncer of switch `c`.
    pub open spec fn debouncer_of(self, c: int) -> DebouncerState {
        if c < 3 {
            self.valve_debouncers_spec()[c]
        } else {
            self.blow_debouncer_spec()
        }
    }
}

/// Ticks of an extractor: each state is the one before after a tick on
/// the matching reading of `raws`.
pub open spec fn tick_chain<I: Inputs>(
    xs: Seq<TrumpetInputs<I>>,
    raws: Seq<TrumpetInputState>,
) -> bool {
    &&& xs.len() == raws.len() + 1
    &&& xs[0].wf()
    &&& forall|i: int| 0 <= i < raws.len() ==> #[trigger] xs[i].ticked(xs[i + 1], raws[i])
}

proof fn lemma_chain_feeds<I: Inputs>(
    xs: Seq<TrumpetInputs<I>>,
    raws: Seq<TrumpetInputState>,
    c: int,
    i: int,
)
    requires
        tick_chain(xs, raws),
        0 <= c < 4,
        0 <= i <= raws.len(),
    ensures
        xs[i].debouncer_of(c) == xs[0].debouncer_of(c).feed(channel_readings(raws, c).take(i)),
        xs[0].debouncer_of(c).wf(),
    decreases i,
{
    if i > 0 {
        lemma_chain_feeds(xs, raws, c, i - 1);
        let j = i - 1;
        assert(xs[j].ticked(xs[j + 1], raws[j]));
        assert(channel_readings(raws, c).take(i).drop_last() =~= channel_readings(raws, c).take(
            i - 1,
        ));
    }
}

/// Across ticks of the extractor: a switch whose raw reading stays `b` for
/// at least `threshold` ticks (and at least one) ends with debounced level
/// `b`.
pub proof fn lemma_ticks_hold_is_accepted<I: Inputs>(
    xs: Seq<TrumpetInputs<I>>,
    raws: Seq<TrumpetInputState>,
    c: int,
    b: bool,
)
    requires
        tick_chain(xs, raws),
        0 <= c < 4,
        raws.len() >= 1,
        raws.len() >= xs[0].debouncer_of(c).threshold,
        forall|i: int| 0 <= i < raws.len() ==> channel(#[trigger] raws[i], c) == b,
    ensures
        channel(xs.last().last_state_spec(), c) == b,
{
    let n = raws.len() as int;
    lemma_chain_feeds(xs, raws, c, n);
    assert(channel_readings(raws, c).take(n) =~= held(b, n as nat));
    lemma_hold_is_accepted(xs[0].debouncer_of(c), b, n as nat);
    let j = n - 1;
    assert(xs[j].ticked(xs[j + 1], raws[j]));
}

/// Across ticks of the extractor: once a switch's debouncer has nothing
/// pending (as right after it accepted a value) and its debounced level is
/// the accepted one, raw runs all shorter than the threshold never move
/// that level, and no edge event for the switch comes out on any tick.
pub proof fn lemma_ticks_short_holds_keep_level<I: Inputs>(
    xs: Seq<TrumpetInputs<I>>,
    raws: Seq<TrumpetInputState>,
    c: int,
)
    requires
        tick_chain(xs, raws),
        0 <= c < 4,
        xs[0].debouncer_of(c).count == 0,
        channel(xs[0].last_state_spec(), c) == known_high(xs[0].debouncer_of(c)),
        holds_shorter_than(channel_readings(raws, c), xs[0].debouncer_of(c).threshold),
    ensures
        forall|i: int|
            0 <= i <= raws.len() ==> channel(#[trigger] xs[i].last_state_spec(), c) == channel(
                xs[0].last_state_spec(),
                c,
            ),
        forall|i: int|
            0 < i <= raws.len() ==> !(#[trigger] xs[i].events_spec()).contains(down_event(c))
                && !xs[i].events_spec().contains(up_event(c)),
{
    let d = xs[0].debouncer_of(c);
    lemma_chain_feeds(xs, raws, c, 0);
    lemma_short_holds_keep_output(d, channel_readings(raws, c));
    assert forall|i: int| 0 <= i <= raws.len() implies channel(
        #[trigger] xs[i].last_state_spec(),
        c,
    ) == channel(xs[0].last_state_spec(), c) by {
        if i > 0 {
            lemma_chain_feeds(xs, raws, c, i);
            let j = i - 1;
        assert(xs[j].ticked(xs[j + 1], raws[j]));
        }
    }
    assert forall|i: int| 0 < i <= raws.len() implies !(#[trigger] xs[i].events_spec()).contains(
        down_event(c),
    ) && !xs[i].events_spec().contains(up_event(c)) by {
        lemma_chain_feeds(xs, raws, c, i);
        lemma_chain_feeds(xs, raws, c, i - 1);
        let j = i - 1;
        assert(xs[j].ticked(xs[j + 1], raws[j]));
        assert(channel(xs[i - 1].last_state_spec(), c) == channel(xs[0].last_state_spec(), c));
        assert(channel(xs[i].last_state_spec(), c) == channel(xs[0].last_state_spec(), c));
        lemma_diff_contains(xs[i - 1].last_state_spec(), xs[i].last_state_spec(), down_event(c));
        lemma_diff_contains(xs[i - 1].last_state_spec(), xs[i].last_state_spec(), up_event(c));
    }
}

/// The control side: reads the inputs, runs the trumpet model and sends the
/// resulting commands down the transport channel.
pub struct TrumpetInterface<FIFO, INPUTS> {
    fifo: FIFO,
    inputs: TrumpetInputs<INPUTS>,
    trumpet: Trumpet,
}

impl<FIFO: Fifo, INPUTS: Inputs> TrumpetInterface<FIFO, INPUTS> {
    pub closed spec fn inputs_spec(self) -> TrumpetInputs<INPUTS> {
        self.inputs
    }

    pub closed spec fn trumpet_spec(self) -> Trumpet {
        self.trumpet
    }

    /// The words written to the channel so far, oldest first.
    pub closed spec fn written(self) -> Seq<u32> {
        self.fifo.written()@
    }

    pub open spec fn wf(self) -> bool {
        self.inputs_spec().wf() && self.trumpet_spec().wf()
    }

    /// Control side of a B-flat trumpet whose switches settle after
    /// `debounce_time` ticks.
    pub fn new(io: IO<FIFO, INPUTS>, debounce_time: u32) -> (r: Self)
        ensures
            r.wf(),
            r.trumpet_spec().def == bflat_trumpet_spec(),
            r.trumpet_spec().state == TrumpetState::initial(),
            r.inputs_spec().inputs_spec() == io.inputs,
            r.inputs_spec().events_spec().len() == 0,
            r.inputs_spec().last_state_spec() == TrumpetInputState::released(),
            r.written() == io.fifo.written()@,
    {
        Self {
            fifo: io.fifo,
            inputs: TrumpetInputs::new(io.inputs, debounce_time),
            trumpet: Trumpet::new(bflat_trumpet()),
        }
    }

    /// One control tick: extracts the events, applies them to the model
    /// and writes the word of each resulting command to the channel: one
    /// word if there were events, none otherwise.
    pub fn run(&mut self)
        requires
            old(self).wf(),
        ensures
            final(self).wf(),
            old(self).inputs_spec().ticked(
                final(self).inputs_spec(),
                old(self).inputs_spec().inputs_spec().readings(),
            ),
            final(self).inputs_spec().inputs_spec().readings() == old(
                self,
            ).inputs_spec().inputs_spec().readings(),
            final(self).trumpet_spec().def == old(self).trumpet_spec().def,
            final(self).trumpet_spec().state == old(self).trumpet_spec().state.after_all(
                final(self).inputs_spec().events_spec(),
            ),
            final(self).written() == old(self).written() + old(
                self,
            ).trumpet_spec().commands_spec(final(self).inputs_spec().events_spec()).map_values(
                |c: Command| c.word(),
            ),
    {
        self.inputs.update_events();
        let commands = self.trumpet.update(self.inputs.events());
        let list = command_slice(&commands);
        let ghost inputs = self.inputs;
        let ghost trumpet = self.trumpet;
        let ghost before = self.fifo.written()@;
        let mut i: usize = 0;
        while i < list.len()
            invariant
                i <= list@.len(),
                self.inputs == inputs,
                self.trumpet == trumpet,
                list@ == command_items(commands),
                forall|k: int| 0 <= k < list@.len() ==> (#[trigger] list@[k]).encodable(),
                self.fifo.written()@ == before + list@.take(i as int).map_values(
                    |c: Command| c.word(),
                ),
            decreases list@.len() - i,
        {
            self.fifo.write(list[i].serialize());
            i = i + 1;
            assert(list@.take(i as int).map_values(|c: Command| c.word()) =~= list@.take(
                i - 1,
            ).map_values(|c: Command| c.word()).push(list@[i - 1].word()));
        }
        assert(list@.take(list@.len() as int) =~= list@);
    }
}

/// Replaces the contents of `events` with the events from `last` to
/// `current`.
fn push_diff_events(
    events: &mut heapless::Vec<TrumpetEvent, 8>,
    last: TrumpetInputState,
    current: TrumpetInputState,
)
    ensures
        event_items(*final(events)) == diff_events(last, current),
{
    clear_event_list(events);
    let a = valve_edge_event(Valve::First, last.first, current.first);
    push_edge(events, a);
    let b = valve_edge_event(Valve::Second, last.second, current.second);
    push_edge(events, b);
    let c = valve_edge_event(Valve::Third, last.third, current.third);
    push_edge(events, c);
    let d = blow_edge_event(last.blow, current.blow);
    push_edge(events, d);
    let f = if enough_change(last.blowstrength, current.blowstrength) {
        Some(TrumpetEvent::BlowStrengthChange(current.blowstrength))
    } else {
        None
    };
    push_edge(events, f);
    let g = if enough_change(last.embouchure, current.embouchure) {
        Some(TrumpetEvent::EmbouchureChange(current.embouchure))
    } else {
        None
    };
    push_edge(events, g);
    assert(optional(f) == event_if(
        moved(last.blowstrength, current.blowstrength),
        TrumpetEvent::BlowStrengthChange(current.blowstrength),
    ));
    assert(optional(g) == event_if(
        moved(last.embouchure, current.embouchure),
        TrumpetEvent::EmbouchureChange(current.embouchure),
    ));
    reveal(diff_events);
    assert(event_items(*events) =~= diff_events(last, current));
}

/// The events of `s`, or none.
pub open spec fn optional(s: Option<TrumpetEvent>) -> Seq<TrumpetEvent> {
    match s {
        Some(e) => seq![e],
        None => Seq::empty(),
    }
}

fn push_edge(events: &mut heapless::Vec<TrumpetEvent, 8>, event: Option<TrumpetEvent>)
    requires
        event_items(*old(events)).len() < 8,
    ensures
        event_items(*final(events)) == event_items(*old(events)) + optional(event),
        event_items(*final(events)).len() <= event_items(*old(events)).len() + 1,
{
    if let Some(e) = event {
        let pushed = push_event(events, e);
        assert(pushed is Ok);
        assert(event_items(*events) =~= event_items(*old(events)) + optional(event));
    } else {
        assert(event_items(*events) =~= event_items(*old(events)) + optional(event));
    }
}

fn valve_edge_event(valve: Valve, was: bool, now: bool) -> (r: Option<TrumpetEvent>)
    ensures
        optional(r) == valve_edge(valve, was, now),
{
    if !was && now {
        Some(TrumpetEvent::ValveDown(valve))
    } else if was && !now {
        Some(TrumpetEvent::ValveUp(valve))
    } else {
        None
    }
}

fn blow_edge_event(was: bool, now: bool) -> (r: Option<TrumpetEvent>)
    ensures
        optional(r) == blow_edge(was, now),
{
    if !was && now {
        Some(TrumpetEvent::BlowDown)
    } else if was && !now {
        Some(TrumpetEvent::BlowUp)
    } else {
        None
    }
}

fn enough_change(last: U0F16, current: U0F16) -> (r: bool)
    ensures
        r == moved(last, current),
{
    last.abs_diff(current).bits > POT_THRESHOLD_BITS
}

} // verus!
