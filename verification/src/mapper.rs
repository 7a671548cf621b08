use vstd::prelude::*;

use crate::actions::Action;
use crate::app::App;
use crate::events::{Event, KeyCode};

verus! {

/// The key-binding table: which action one event stands for. It reads
/// nothing but the event, so mapping is a pure function of the event alone.
pub open spec fn action_of(e: Event) -> Action {
    match e {
        Event::Error => Action::Noop,
        Event::Tick => Action::Tick,
        Event::Render => Action::Render,
        Event::Key(code) => match code {
            KeyCode::Char(c) => {
                if c == 'j' {
                    Action::Increment
                } else if c == 'k' {
                    Action::Decrement
                } else if c == 'J' {
                    Action::NetworkRequestAndThenIncrement
                } else if c == 'K' {
                    Action::NetworkRequestAndThenDecrement
                } else if c == 'q' {
                    Action::Quit
                } else {
                    Action::Noop
                }
            },
            KeyCode::Other => Action::Noop,
        },
        _ => Action::Noop,
    }
}

/// Which events the main loop forwards to the action channel at all, and as
/// what. Timer and quit events carry their own action; key presses go
/// through the binding table; everything else is dropped before the channel.
pub open spec fn routed_action(e: Event) -> Option<Action> {
    match e {
        Event::Quit => Some(Action::Quit),
        Event::Tick => Some(Action::Tick),
        Event::Render => Some(Action::Render),
        Event::Key(_) => Some(action_of(e)),
        _ => None,
    }
}

/// The mapper: a pure function from the state and one event to an action.
/// The state is only borrowed, never written, and the result depends on the
/// event alone, so two calls on the same event agree whatever the states.
pub fn get_action(_app: &App, event: Event) -> (action: Action)
    ensures
        action == action_of(event),
{
    match event {
        Event::Error => Action::Noop,
        Event::Tick => Action::Tick,
        Event::Render => Action::Render,
        Event::Key(code) => match code {
            KeyCode::Char(c) => match c {
                'j' => Action::Increment,
                'k' => Action::Decrement,
                'J' => Action::NetworkRequestAndThenIncrement,
                'K' => Action::NetworkRequestAndThenDecrement,
                'q' => Action::Quit,
                _ => Action::Noop,
            },
            KeyCode::Other => Action::Noop,
        },
        _ => Action::Noop,
    }
}

/// One routing decision of the main loop: `Some` exactly for the events the
/// loop sends on to the action channel, carrying the action the binding
/// table gives them.
pub fn route_event(app: &App, event: Event) -> (routed: Option<Action>)
    ensures
        routed == routed_action(event),
{
    match event {
        Event::Quit => Some(Action::Quit),
        Event::Tick => Some(Action::Tick),
        Event::Render => Some(Action::Render),
        Event::Key(code) => Some(get_action(app, Event::Key(code))),
        _ => None,
    }
}

} // verus!
