use vstd::prelude::*;

verus! {

/// An event that the producer sends to the consumer.
pub enum Event {
    Tick(i32),
    Done,
}

/// The events that the producer sends, in order: `Tick(0)` to `Tick(4)`, then `Done`.
pub fn producer_events() -> (r: Vec<Event>)
    ensures
        r@.len() == 6,
        forall|i: int| 0 <= i < 5 ==> #[trigger] r@[i] == Event::Tick(i as i32),
        r@[5] == Event::Done,
{
    let mut r: Vec<Event> = Vec::new();
    let mut i: i32 = 0;
    while i < 5
        invariant
            0 <= i <= 5,
            r@.len() == i,
            forall|k: int| 0 <= k < i ==> #[trigger] r@[k] == Event::Tick(k as i32),
        decreases 5 - i,
    {
        r.push(Event::Tick(i));
        i = i + 1;
    }
    r.push(Event::Done);
    r
}

/// Whether the consumer keeps receiving after handling `event`: it stops at `Done`.
pub fn consumer_continues(event: &Event) -> (r: bool)
    ensures
        r == (*event is Tick),
{
    match event {
        Event::Tick(_) => true,
        Event::Done => false,
    }
}

} // verus!
