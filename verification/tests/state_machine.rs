use stello_booking::errors::Error;
use stello_booking::state_machine::{
    is_terminal, validate_dispute_transition, validate_transition,
};
use stello_booking::types::BookingState;

const ALL: [BookingState; 6] = [
    BookingState::Created,
    BookingState::Escrowed,
    BookingState::CheckedIn,
    BookingState::Completed,
    BookingState::Cancelled,
    BookingState::Disputed,
];

fn is_valid_edge(from: BookingState, to: BookingState) -> bool {
    matches!(
        (from, to),
        (BookingState::Created, BookingState::Escrowed)
            | (BookingState::Escrowed, BookingState::CheckedIn)
            | (BookingState::CheckedIn, BookingState::Completed)
            | (BookingState::Escrowed, BookingState::Cancelled)
    )
}

#[test]
fn every_valid_transition_accepted() {
    assert!(validate_transition(BookingState::Created, BookingState::Escrowed).is_ok());
    assert!(validate_transition(BookingState::Escrowed, BookingState::CheckedIn).is_ok());
    assert!(validate_transition(BookingState::CheckedIn, BookingState::Completed).is_ok());
    assert!(validate_transition(BookingState::Escrowed, BookingState::Cancelled).is_ok());
}

#[test]
fn every_invalid_transition_rejected() {
    for from in ALL {
        for to in ALL {
            if is_valid_edge(from, to) {
                continue;
            }
            assert_eq!(
                validate_transition(from, to),
                Err(Error::InvalidStateTransition),
                "expected reject for {:?} → {:?}",
                from,
                to
            );
        }
    }
}

#[test]
fn terminals() {
    assert!(is_terminal(BookingState::Completed));
    assert!(is_terminal(BookingState::Cancelled));
    assert!(!is_terminal(BookingState::Created));
    assert!(!is_terminal(BookingState::Escrowed));
    assert!(!is_terminal(BookingState::CheckedIn));
    assert!(!is_terminal(BookingState::Disputed));
}

#[test]
fn terminal_states_have_no_way_on() {
    for from in ALL {
        if is_terminal(from) {
            for to in ALL {
                assert!(validate_transition(from, to).is_err());
            }
        }
    }
}

#[test]
fn dispute_edges() {
    for from in ALL {
        for to in ALL {
            let edge = matches!(
                (from, to),
                (BookingState::Escrowed, BookingState::Disputed)
                    | (BookingState::Completed, BookingState::Disputed)
                    | (BookingState::Disputed, BookingState::Completed)
            );
            let expected = if edge { Ok(()) } else { Err(Error::InvalidStateTransition) };
            assert_eq!(validate_dispute_transition(from, to), expected);
        }
    }
}

#[test]
fn error_codes() {
    assert_eq!(Error::AlreadyInitialized.code(), 1);
    assert_eq!(Error::NotInitialized.code(), 2);
    assert_eq!(Error::Unauthorized.code(), 3);
    assert_eq!(Error::InvalidStateTransition.code(), 4);
    assert_eq!(Error::MathError.code(), 15);
    assert_eq!(Error::SettlementNotFound.code(), 20);
    assert_eq!(Error::NothingToClaim.code(), 21);
}
