use vstd::prelude::*;

use crate::actions::{Action, Effect};
use crate::app::{App, AppView};
use crate::clock::{format_seoul, seoul_display_of, MAX_DISPLAY_TS};

verus! {

/// How long the simulated network request of the two deferred actions
/// takes, in seconds.
pub const NETWORK_DELAY_SECS: u64 = 5;

/// The state after one action is applied at wall time `ts`. `Tick` rewrites
/// only the display string; the counter actions move only the counter,
/// saturating at the ends of `i64` rather than wrapping; `Quit` only raises
/// the quit flag; every other action leaves the state untouched.
pub open spec fn step(s: AppView, a: Action, ts: int) -> AppView {
    match a {
        Action::Tick => AppView { refresh_datetime: seoul_display_of(ts), ..s },
        Action::Increment => AppView {
            counter: if s.counter < i64::MAX { s.counter + 1 } else { s.counter },
            ..s
        },
        Action::Decrement => AppView {
            counter: if s.counter > i64::MIN { s.counter - 1 } else { s.counter },
            ..s
        },
        Action::Quit => AppView { should_quit: true, ..s },
        _ => s,
    }
}

/// The deferred work one action asks for. Each of the two network actions
/// schedules its counter action after the simulated network delay; no other
/// action schedules anything.
pub open spec fn effects_of(a: Action) -> Seq<Effect> {
    match a {
        Action::NetworkRequestAndThenIncrement => seq![
            Effect { delay_secs: NETWORK_DELAY_SECS, action: Action::Increment },
        ],
        Action::NetworkRequestAndThenDecrement => seq![
            Effect { delay_secs: NETWORK_DELAY_SECS, action: Action::Decrement },
        ],
        _ => Seq::empty(),
    }
}

/// The updater: the sole writer of the state. It applies one action at wall
/// time `now_ts` and returns the deferred work the surrounding loop must
/// run; it never blocks, sleeps or draws itself.
pub fn update(app: &mut App, action: Action, now_ts: i64) -> (effects: Vec<Effect>)
    requires
        0 <= now_ts <= MAX_DISPLAY_TS,
    ensures
        final(app)@ == step(old(app)@, action, now_ts as int),
        effects@ == effects_of(action),
{
    let mut effects: Vec<Effect> = Vec::new();
    match action {
        Action::Tick => {
            app.refresh_datetime = format_seoul(now_ts);
        },
        Action::Increment => {
            if app.counter < i64::MAX {
                app.counter = app.counter + 1;
            }
        },
        Action::Decrement => {
            if app.counter > i64::MIN {
                app.counter = app.counter - 1;
            }
        },
        Action::NetworkRequestAndThenIncrement => {
            effects.push(Effect { delay_secs: NETWORK_DELAY_SECS, action: Action::Increment });
        },
        Action::NetworkRequestAndThenDecrement => {
            effects.push(Effect { delay_secs: NETWORK_DELAY_SECS, action: Action::Decrement });
        },
        Action::Quit => {
            app.should_quit = true;
        },
        _ => {},
    }
    effects
}

} // verus!
