//! Booking state transitions.
//!
//! Lifecycle edges:
//! `Created → Escrowed → CheckedIn → Completed`
//! `Escrowed → Cancelled`
//!
//! A dispute leaves the lifecycle and comes back to it by edges of its own:
//! `Escrowed → Disputed`, `Completed → Disputed` (recovery of a booking whose
//! settlement has not gone through) and `Disputed → Completed`.
use vstd::prelude::*;

use crate::errors::Error;
use crate::types::BookingState;

verus! {

/// The lifecycle edges.
pub open spec fn is_lifecycle_edge(from: BookingState, to: BookingState) -> bool {
    ||| from == BookingState::Created && to == BookingState::Escrowed
    ||| from == BookingState::Escrowed && to == BookingState::CheckedIn
    ||| from == BookingState::CheckedIn && to == BookingState::Completed
    ||| from == BookingState::Escrowed && to == BookingState::Cancelled
}

/// The edges into and out of a dispute.
pub open spec fn is_dispute_edge(from: BookingState, to: BookingState) -> bool {
    ||| from == BookingState::Escrowed && to == BookingState::Disputed
    ||| from == BookingState::Completed && to == BookingState::Disputed
    ||| from == BookingState::Disputed && to == BookingState::Completed
}

/// The states in which the lifecycle ends.
pub open spec fn is_terminal_state(state: BookingState) -> bool {
    state == BookingState::Completed || state == BookingState::Cancelled
}

/// Returns `Ok(())` iff `from → to` is an edge of the lifecycle.
pub fn validate_transition(from: BookingState, to: BookingState) -> (result: Result<(), Error>)
    ensures
        result == (if is_lifecycle_edge(from, to) {
            Ok::<(), Error>(())
        } else {
            Err::<(), Error>(Error::InvalidStateTransition)
        }),
{
    let allowed = matches!(
        (from, to),
        (BookingState::Created, BookingState::Escrowed)
            | (BookingState::Escrowed, BookingState::CheckedIn)
            | (BookingState::CheckedIn, BookingState::Completed)
            | (BookingState::Escrowed, BookingState::Cancelled)
    );

    if allowed {
        Ok(())
    } else {
        Err(Error::InvalidStateTransition)
    }
}

/// Returns `Ok(())` iff `from → to` enters or leaves a dispute.
pub fn validate_dispute_transition(from: BookingState, to: BookingState) -> (result: Result<
    (),
    Error,
>)
    ensures
        result == (if is_dispute_edge(from, to) {
            Ok::<(), Error>(())
        } else {
            Err::<(), Error>(Error::InvalidStateTransition)
        }),
{
    let allowed = matches!(
        (from, to),
        (BookingState::Escrowed, BookingState::Disputed)
            | (BookingState::Completed, BookingState::Disputed)
            | (BookingState::Disputed, BookingState::Completed)
    );

    if allowed {
        Ok(())
    } else {
        Err(Error::InvalidStateTransition)
    }
}

/// Whether the lifecycle ends in `state`.
pub fn is_terminal(state: BookingState) -> (result: bool)
    ensures
        result == is_terminal_state(state),
{
    matches!(state, BookingState::Completed | BookingState::Cancelled)
}

/// No lifecycle edge leaves a terminal state, and every other state that the
/// lifecycle passes through has one.
pub proof fn terminal_states_are_the_dead_ends(state: BookingState)
    requires
        state != BookingState::Disputed,
    ensures
        is_terminal_state(state) <==> (forall|to: BookingState| !is_lifecycle_edge(state, to)),
{
    assert(is_lifecycle_edge(BookingState::Created, BookingState::Escrowed));
    assert(is_lifecycle_edge(BookingState::Escrowed, BookingState::CheckedIn));
    assert(is_lifecycle_edge(BookingState::CheckedIn, BookingState::Completed));
}

/// No lifecycle edge enters or leaves a dispute: only the dispute edges do.
pub proof fn disputes_are_off_the_lifecycle(from: BookingState, to: BookingState)
    ensures
        from == BookingState::Disputed || to == BookingState::Disputed ==> !is_lifecycle_edge(
            from,
            to,
        ),
        is_dispute_edge(from, to) ==> from == BookingState::Disputed || to
            == BookingState::Disputed,
{
}

/// The states that follow on each state: `Escrowed` on `Created`; `CheckedIn` or
/// `Cancelled` on `Escrowed`; `Completed` on `CheckedIn`; nothing on the others. A dispute
/// follows on `Escrowed` and `Completed`, and `Completed` on a dispute.
pub proof fn successors_of_each_state(to: BookingState)
    ensures
        is_lifecycle_edge(BookingState::Created, to) <==> to == BookingState::Escrowed,
        is_lifecycle_edge(BookingState::Escrowed, to) <==> to == BookingState::CheckedIn || to
            == BookingState::Cancelled,
        is_lifecycle_edge(BookingState::CheckedIn, to) <==> to == BookingState::Completed,
        !is_lifecycle_edge(BookingState::Completed, to),
        !is_lifecycle_edge(BookingState::Cancelled, to),
        !is_lifecycle_edge(BookingState::Disputed, to),
        !is_dispute_edge(BookingState::Created, to),
        is_dispute_edge(BookingState::Escrowed, to) <==> to == BookingState::Disputed,
        !is_dispute_edge(BookingState::CheckedIn, to),
        is_dispute_edge(BookingState::Completed, to) <==> to == BookingState::Disputed,
        !is_dispute_edge(BookingState::Cancelled, to),
        is_dispute_edge(BookingState::Disputed, to) <==> to == BookingState::Completed,
        is_terminal_state(to) <==> to == BookingState::Completed || to == BookingState::Cancelled,
{
}

} // verus!
