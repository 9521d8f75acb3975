use vstd::prelude::*;

verus! {

/// One step of the pre-handoff countdown: announce the number of seconds
/// remaining, then stall the single execution context for `stall_seconds`.
#[derive(Clone, Copy, Debug, PartialEq, Eq, Structural)]
pub struct CountdownTick {
    pub remaining: u8,
    pub stall_seconds: u64,
}

/// The fixed operator-visibility delay run between locating the target image
/// and handing control to it: exactly three announcements ("3", "2", "1"),
/// each followed by one stall of the same fixed duration. It is not
/// configurable and not cancellable.
pub fn countdown_plan() -> (r: Vec<CountdownTick>)
    ensures
        r@.len() == 3,
        forall|i: int| 0 <= i < 3 ==> (#[trigger] r@[i]).remaining == 3 - i,
        forall|i: int| 0 <= i < 3 ==> (#[trigger] r@[i]).stall_seconds == 1,
{
    let mut r: Vec<CountdownTick> = Vec::new();
    r.push(CountdownTick { remaining: 3, stall_seconds: 1 });
    r.push(CountdownTick { remaining: 2, stall_seconds: 1 });
    r.push(CountdownTick { remaining: 1, stall_seconds: 1 });
    r
}

} // verus!
