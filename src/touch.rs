use vstd::prelude::*;

verus! {

/// Phase of one touch contact, as the dispatcher classifies a touch event.
#[derive(Clone, Copy, Debug, PartialEq, Eq, Structural)]
pub enum TouchPhase {
    Started,
    Moved,
    Ended,
    Cancelled,
}

/// Updates the touch bookkeeping for one touch event and tells whether `id` is
/// the contact that drives the synthesized cursor.
pub fn is_first_touch(first: &mut Option<u64>, num: &mut u32, id: u64, phase: TouchPhase) -> (r: bool)
    ensures
        (*final(first), *final(num)) == touch_next(*old(first), *old(num), id, phase),
        r == (*final(first) == Some(id)),
{
    match phase {
        TouchPhase::Started => {
            if *num == 0 {
                *first = Some(id);
            }
            *num = num.saturating_add(1);
        },
        TouchPhase::Cancelled | TouchPhase::Ended => {
            if *first == Some(id) {
                *first = None;
            }
            *num = num.saturating_sub(1);
        },
        TouchPhase::Moved => {},
    }
    *first == Some(id)
}

/// The touch bookkeeping after one touch event.
pub open spec fn touch_next(first: Option<u64>, num: u32, id: u64, phase: TouchPhase) -> (Option<u64>, u32) {
    match phase {
        TouchPhase::Started => (
            if num == 0 { Some(id) } else { first },
            if num == u32::MAX { u32::MAX } else { (num + 1) as u32 },
        ),
        TouchPhase::Ended | TouchPhase::Cancelled => (
            if first == Some(id) { None } else { first },
            if num == 0 { 0 } else { (num - 1) as u32 },
        ),
        TouchPhase::Moved => (first, num),
    }
}

/// The bookkeeping after a run of touch events, from no touches.
pub open spec fn touch_run(events: Seq<(u64, TouchPhase)>) -> (Option<u64>, u32)
    decreases events.len(),
{
    if events.len() == 0 {
        (None, 0)
    } else {
        let prev = touch_run(events.drop_last());
        touch_next(prev.0, prev.1, events.last().0, events.last().1)
    }
}

/// Whether contact `id` is active after a run: its last start, end or
/// cancel event is a start.
pub open spec fn touch_active(events: Seq<(u64, TouchPhase)>, id: u64) -> bool
    decreases events.len(),
{
    if events.len() == 0 {
        false
    } else if events.last().0 == id && events.last().1 != TouchPhase::Moved {
        events.last().1 == TouchPhase::Started
    } else {
        touch_active(events.drop_last(), id)
    }
}

/// After any run of touch events, the recorded first touch names a contact
/// that is still active.
pub proof fn lemma_first_touch_is_active(events: Seq<(u64, TouchPhase)>)
    ensures
        touch_run(events).0 matches Some(k) ==> touch_active(events, k),
    decreases events.len(),
{
    if events.len() > 0 {
        lemma_first_touch_is_active(events.drop_last());
    }
}

} // verus!
