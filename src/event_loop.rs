//! The decisions of the event loop, as a state machine. The caller owns the
//! connection to the windowing system: it performs each action that a step
//! returns and feeds back what came of it as the next event.

use vstd::prelude::*;
use crate::config::Config;
use crate::inject::{button_press_of, PRIMARY_BUTTON, is_dispatched, make_click, ButtonPress, KeyPress};
use crate::keys::{key_identity_of, normalize_key};
use crate::translate::{click_point_of, translate_click, Size};

verus! {

/// An input event fetched from the queue: a key press with the keyboard symbol
/// of its key code, or anything else.
#[derive(Clone, Copy, Debug, PartialEq, Eq, Structural)]
pub enum InputEvent {
    Key { press: KeyPress, keysym: u64 },
    Other,
}

/// Where the loop stands.
#[derive(Clone, Copy, Debug, PartialEq, Eq, Structural)]
pub enum LoopState {
    /// Waiting out the pause between polls.
    Idle,
    /// Waiting for the number of buffered events.
    Polling,
    /// Waiting for the next buffered event.
    Draining,
    /// Waiting for the window and screen sizes, to place a press of `key`.
    Resolving { press: KeyPress, key: u8 },
    /// Waiting for a synthetic press to have been sent.
    Sending,
}

/// What the caller hands back after performing an action.
#[derive(Clone, Copy, Debug, PartialEq, Eq, Structural)]
pub enum LoopEvent {
    /// The pause is over.
    Woke,
    /// The number of buffered events.
    Pending { count: u32 },
    /// The next buffered event.
    Next { event: InputEvent },
    /// The sizes of the target window and of its root window (the screen), and
    /// the root window's handle.
    Geometry { window: Size, screen: Size, root: u64 },
    /// The synthetic press was sent.
    Sent,
}

/// What the caller is to do next.
#[derive(Clone, Copy, Debug, PartialEq, Eq, Structural)]
pub enum LoopAction {
    /// Count the buffered events.
    CountPending,
    /// Pause for `SLEEP_MILLIS` milliseconds.
    Sleep,
    /// Fetch the next buffered event.
    FetchNext,
    /// Query the sizes of the target window and of its root window.
    QueryGeometry,
    /// Send `press` to the target window and log that `key` clicked there.
    Send { press: ButtonPress, key: u8 },
}

/// The pause between two polls that found nothing, in milliseconds.
pub const SLEEP_MILLIS: u64 = 10;

/// The state and action that the loop starts with: count what is buffered.
pub open spec fn initial() -> (LoopState, LoopAction) {
    (LoopState::Polling, LoopAction::CountPending)
}

/// One transition of the loop for the target window `window`. Key presses
/// whose symbol names a key have the sizes queried; a placed click with both
/// coordinates positive is sent. Every other event, and an event that does not
/// fit the state, goes back to counting what is buffered.
pub open spec fn transition(config: &Config, window: u64, state: LoopState, event: LoopEvent) -> (LoopState, LoopAction) {
    match (state, event) {
        (LoopState::Idle, LoopEvent::Woke) => (LoopState::Polling, LoopAction::CountPending),
        (LoopState::Polling, LoopEvent::Pending { count }) =>
            if count == 0 {
                (LoopState::Idle, LoopAction::Sleep)
            } else {
                (LoopState::Draining, LoopAction::FetchNext)
            },
        (LoopState::Draining, LoopEvent::Next { event: InputEvent::Key { press, keysym } }) =>
            match key_identity_of(keysym) {
                Some(key) => (LoopState::Resolving { press, key }, LoopAction::QueryGeometry),
                None => (LoopState::Polling, LoopAction::CountPending),
            },
        (LoopState::Resolving { press, key }, LoopEvent::Geometry { window: size, screen, root }) => {
            let p = click_point_of(config, Some(key), size, screen);
            if is_dispatched(p) {
                (LoopState::Sending, LoopAction::Send { press: button_press_of(press, window, root, p), key })
            } else {
                (LoopState::Polling, LoopAction::CountPending)
            }
        },
        _ => (LoopState::Polling, LoopAction::CountPending),
    }
}

/// A synthetic press is sent only for a key that has an entry in the keybind
/// table; it presses the primary button of the target window, at a point with
/// both coordinates positive. So a key without an entry never clicks.
pub proof fn lemma_sends_only_bound_keys(config: &Config, window: u64, state: LoopState, event: LoopEvent)
    ensures
        transition(config, window, state, event).1 matches LoopAction::Send { press, key } ==> {
            &&& config.bindings().contains_key(key)
            &&& press.button == PRIMARY_BUTTON
            &&& press.window == window
            &&& press.send_event
            &&& press.x > 0 && press.y > 0
        },
{
}

/// The state and action that the loop starts with.
pub fn start() -> (r: (LoopState, LoopAction))
    ensures
        r == initial(),
{
    (LoopState::Polling, LoopAction::CountPending)
}

/// Takes the loop one step: from `state` and what came of the last action to
/// the next state and action.
pub fn step(config: &Config, window: u64, state: LoopState, event: LoopEvent) -> (r: (LoopState, LoopAction))
    requires
        config.wf(),
    ensures
        r == transition(config, window, state, event),
{
    match (state, event) {
        (LoopState::Idle, LoopEvent::Woke) => (LoopState::Polling, LoopAction::CountPending),
        (LoopState::Polling, LoopEvent::Pending { count }) => {
            if count == 0 {
                (LoopState::Idle, LoopAction::Sleep)
            } else {
                (LoopState::Draining, LoopAction::FetchNext)
            }
        },
        (LoopState::Draining, LoopEvent::Next { event: InputEvent::Key { press, keysym } }) => {
            match normalize_key(keysym) {
                Some(key) => (LoopState::Resolving { press, key }, LoopAction::QueryGeometry),
                None => (LoopState::Polling, LoopAction::CountPending),
            }
        },
        (LoopState::Resolving { press, key }, LoopEvent::Geometry { window: size, screen, root }) => {
            let p = translate_click(config, Some(key), size, screen);
            match make_click(&press, window, root, p) {
                Some(b) => (LoopState::Sending, LoopAction::Send { press: b, key }),
                None => (LoopState::Polling, LoopAction::CountPending),
            }
        },
        _ => (LoopState::Polling, LoopAction::CountPending),
    }
}

} // verus!
