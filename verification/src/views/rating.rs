//! What the rating screens have in common: how one dial event acts on the
//! sampler of the screen, and how time on a screen is measured.

use vstd::prelude::*;
use crate::events::{DialDirection, DialEvent};
use crate::sampler::{Cycle, DecisionSampler, SamplerState};

verus! {

/// The time that has passed at clock reading `now` since the reading `since`;
/// zero if the clock reads less than `since`.
pub open spec fn elapsed(now: u64, since: u64) -> u64 {
    if now >= since {
        (now - since) as u64
    } else {
        0
    }
}

/// The time that has passed at clock reading `now` since the reading `since`.
pub fn elapsed_ms(now: u64, since: u64) -> (e: u64)
    ensures
        e == elapsed(now, since),
{
    if now >= since {
        now - since
    } else {
        0
    }
}

/// Whether `msg` is a press of the dial's button.
pub open spec fn is_press(msg: Option<DialEvent>) -> bool {
    msg == Some(DialEvent::Button { pressed: true })
}

/// The sampler after the dial event of one cycle: a rotation moves the value;
/// a press of the button locks the decision if none is locked yet and the
/// screen allows it (`may_lock`).
pub open spec fn after_event(
    s: SamplerState,
    msg: Option<DialEvent>,
    now: int,
    stamp: u64,
    may_lock: bool,
) -> SamplerState {
    match msg {
        Some(DialEvent::Rotate { direction }) => s.rotated(direction, now),
        Some(DialEvent::Button { pressed }) => if pressed && !s.finalized && may_lock {
            s.finalized_at(stamp)
        } else {
            s
        },
        _ => s,
    }
}

/// Whether the dial event of one cycle asks for the next screen: a press of
/// the button once the decision is locked.
pub open spec fn asks_to_advance(s: SamplerState, msg: Option<DialEvent>) -> bool {
    is_press(msg) && s.finalized
}

/// The dial event that a rotation, or none, comes as.
pub open spec fn rotation_event(rotation: Option<DialDirection>) -> Option<DialEvent> {
    match rotation {
        Some(direction) => Some(DialEvent::Rotate { direction }),
        None => None,
    }
}

/// A cycle of a rating screen without a press of the button is one cycle of
/// its sampler: the rotation, if there is one, and then the tick, whether or
/// not an event arrived.
pub proof fn lemma_update_is_a_cycle(
    s: SamplerState,
    rotation: Option<DialDirection>,
    now: int,
    stamp: u64,
    may_lock: bool,
)
    ensures
        after_event(s, rotation_event(rotation), now, stamp, may_lock).ticked(now, stamp)
            == s.cycled(Cycle { rotation, now, stamp }),
        !asks_to_advance(s, rotation_event(rotation)),
{
}

/// Applies the dial event of one cycle to `sampler` and says whether it asks
/// for the next screen.
pub fn handle_event(
    sampler: &mut DecisionSampler,
    msg: Option<DialEvent>,
    now: u64,
    stamp: u64,
    may_lock: bool,
) -> (advance: bool)
    ensures
        advance == asks_to_advance(old(sampler)@, msg),
        final(sampler)@ == after_event(old(sampler)@, msg, now as int, stamp, may_lock),
        final(sampler)@.wf(),
{
    let _ = sampler.current_value();
    match msg {
        Some(DialEvent::Rotate { direction }) => {
            sampler.apply_rotation(direction, now);
            false
        },
        Some(DialEvent::Button { pressed }) => {
            if pressed {
                if sampler.is_finalized() {
                    true
                } else {
                    if may_lock {
                        sampler.finalize(stamp);
                    }
                    false
                }
            } else {
                false
            }
        },
        _ => false,
    }
}

} // verus!
