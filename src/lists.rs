//! Fixed-capacity lists of events and commands, held in heapless vectors.
use crate::commands::Command;
use crate::interface::TrumpetEvent;
use vstd::prelude::*;

verus! {

#[verifier::external_type_specification]
#[verifier::external_body]
#[verifier::reject_recursive_types(T)]
pub struct ExHeaplessVec<T, const N: usize>(heapless::Vec<T, N>);

/// The events held by an event list, oldest first.
pub uninterp spec fn event_items(v: heapless::Vec<TrumpetEvent, 8>) -> Seq<TrumpetEvent>;

/// The commands held by a command list, oldest first.
pub uninterp spec fn command_items(v: heapless::Vec<Command, 4>) -> Seq<Command>;

/// Relies on heapless::Vec::new: a new vector holds nothing.
#[verifier::external_body]
pub(crate) fn new_event_list() -> (r: heapless::Vec<TrumpetEvent, 8>)
    ensures
        event_items(r) == Seq::<TrumpetEvent>::empty(),
{
    heapless::Vec::new()
}

/// Relies on heapless::Vec::clear: afterwards the vector holds nothing.
#[verifier::external_body]
pub(crate) fn clear_event_list(v: &mut heapless::Vec<TrumpetEvent, 8>)
    ensures
        event_items(*final(v)) == Seq::<TrumpetEvent>::empty(),
{
    v.clear()
}

/// Relies on heapless::Vec::push: below the capacity of 8 the item is
/// appended; at capacity it is handed back and the vector is unchanged.
#[verifier::external_body]
pub(crate) fn push_event(
    v: &mut heapless::Vec<TrumpetEvent, 8>,
    e: TrumpetEvent,
) -> (r: Result<(), TrumpetEvent>)
    ensures
        event_items(*old(v)).len() < 8 ==> r is Ok
            && event_items(*final(v)) == event_items(*old(v)).push(e),
        event_items(*old(v)).len() >= 8 ==> (r matches Err(x) && x == e)
            && event_items(*final(v)) == event_items(*old(v)),
{
    v.push(e)
}

/// Relies on heapless::Vec::as_slice: the slice holds the items in order.
#[verifier::external_body]
pub(crate) fn event_slice(v: &heapless::Vec<TrumpetEvent, 8>) -> (r: &[TrumpetEvent])
    ensures
        r@ == event_items(*v),
{
    v.as_slice()
}

/// Relies on heapless::Vec::new: a new vector holds nothing.
#[verifier::external_body]
pub(crate) fn new_command_list() -> (r: heapless::Vec<Command, 4>)
    ensures
        command_items(r) == Seq::<Command>::empty(),
{
    heapless::Vec::new()
}

/// Relies on heapless::Vec::push: below the capacity of 4 the item is
/// appended; at capacity it is handed back and the vector is unchanged.
#[verifier::external_body]
pub(crate) fn push_command(
    v: &mut heapless::Vec<Command, 4>,
    c: Command,
) -> (r: Result<(), Command>)
    ensures
        command_items(*old(v)).len() < 4 ==> r is Ok
            && command_items(*final(v)) == command_items(*old(v)).push(c),
        command_items(*old(v)).len() >= 4 ==> (r matches Err(x) && x == c)
            && command_items(*final(v)) == command_items(*old(v)),
{
    v.push(c)
}

/// Relies on heapless::Vec::as_slice: the slice holds the items in order.
#[verifier::external_body]
pub(crate) fn command_slice(v: &heapless::Vec<Command, 4>) -> (r: &[Command])
    ensures
        r@ == command_items(*v),
{
    v.as_slice()
}

} // verus!
