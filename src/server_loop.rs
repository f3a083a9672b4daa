use vstd::prelude::*;

verus! {

/// Where a server's accept or receive loop stands.
#[derive(Clone, Copy, Debug, PartialEq, Eq, Structural)]
pub enum LoopState {
    /// Blocked on accept (or receive), no handler running.
    Waiting,
    /// A "connection" handler is running; nothing is accepted meanwhile.
    Handling,
    /// The loop has ended with an error.
    Stopped,
}

/// What the transport reports to the loop.
#[derive(Clone, Copy, Debug, PartialEq, Eq, Structural)]
pub enum LoopEvent {
    /// A new peer was accepted (or a datagram received).
    Accepted,
    /// Accepting (or receiving) failed.
    Failed,
    /// The running "connection" handler has returned.
    HandlerReturned,
}

/// What the loop does next.
#[derive(Clone, Copy, Debug, PartialEq, Eq, Structural)]
pub enum LoopAction {
    /// Block on the next accept (or receive).
    AcceptNext,
    /// Run the "connection" handler for the new peer, synchronously.
    RunHandler,
    /// End the loop, surfacing the failure.
    Stop,
}

/// The loop's transition. A stream server stops on a failed accept; a
/// datagram server (`skip_failures`) drops the failed receive and goes on.
/// A new peer runs the handler when one is registered and is otherwise
/// passed over. Events that cannot occur in a state leave it unchanged and
/// end the loop.
pub open spec fn loop_transition(
    state: LoopState,
    event: LoopEvent,
    has_handler: bool,
    skip_failures: bool,
) -> (LoopState, LoopAction) {
    match (state, event) {
        (LoopState::Waiting, LoopEvent::Accepted) => if has_handler {
            (LoopState::Handling, LoopAction::RunHandler)
        } else {
            (LoopState::Waiting, LoopAction::AcceptNext)
        },
        (LoopState::Waiting, LoopEvent::Failed) => if skip_failures {
            (LoopState::Waiting, LoopAction::AcceptNext)
        } else {
            (LoopState::Stopped, LoopAction::Stop)
        },
        (LoopState::Handling, LoopEvent::HandlerReturned) => (LoopState::Waiting, LoopAction::AcceptNext),
        _ => (state, LoopAction::Stop),
    }
}

/// Decides the loop's next state and action for one event.
pub fn loop_step(state: LoopState, event: LoopEvent, has_handler: bool, skip_failures: bool) -> (r: (
    LoopState,
    LoopAction,
))
    ensures
        r == loop_transition(state, event, has_handler, skip_failures),
{
    match (state, event) {
        (LoopState::Waiting, LoopEvent::Accepted) => if has_handler {
            (LoopState::Handling, LoopAction::RunHandler)
        } else {
            (LoopState::Waiting, LoopAction::AcceptNext)
        },
        (LoopState::Waiting, LoopEvent::Failed) => if skip_failures {
            (LoopState::Waiting, LoopAction::AcceptNext)
        } else {
            (LoopState::Stopped, LoopAction::Stop)
        },
        (LoopState::Handling, LoopEvent::HandlerReturned) => (LoopState::Waiting, LoopAction::AcceptNext),
        _ => (state, LoopAction::Stop),
    }
}

/// Connections are handled one at a time: while a handler runs, the loop
/// accepts nothing until that handler has returned, and a handler is only
/// started from the waiting state, so two handlers never overlap.
pub proof fn lemma_sequential_accept(
    state: LoopState,
    event: LoopEvent,
    has_handler: bool,
    skip_failures: bool,
)
    ensures
        ({
            let (next, action) = loop_transition(state, event, has_handler, skip_failures);
            &&& (state == LoopState::Handling && action == LoopAction::AcceptNext)
                ==> event == LoopEvent::HandlerReturned
            &&& action == LoopAction::RunHandler ==> state == LoopState::Waiting
                && next == LoopState::Handling
            &&& action == LoopAction::AcceptNext ==> next == LoopState::Waiting
        }),
{
}

} // verus!
