use vstd::prelude::*;

use crate::actions::{Action, Effect};
use crate::app::AppView;
use crate::clock::seoul_display_of;
use crate::updater::{effects_of, step, NETWORK_DELAY_SECS};

verus! {

/// The state after a whole sequence of actions is applied in order, every
/// application seeing wall time `ts`.
pub open spec fn run_actions(s: AppView, actions: Seq<Action>, ts: int) -> AppView
    decreases actions.len(),
{
    if actions.len() == 0 {
        s
    } else {
        step(run_actions(s, actions.drop_last(), ts), actions.last(), ts)
    }
}

/// `n` copies of one action.
pub open spec fn repeated(a: Action, n: nat) -> Seq<Action>
    decreases n,
{
    if n == 0 {
        Seq::empty()
    } else {
        repeated(a, (n - 1) as nat).push(a)
    }
}

/// Running a concatenation of two action sequences is running the first,
/// then the second.
pub proof fn lemma_run_actions_append(s: AppView, a: Seq<Action>, b: Seq<Action>, ts: int)
    ensures
        run_actions(s, a + b, ts) == run_actions(run_actions(s, a, ts), b, ts),
    decreases b.len(),
{
    if b.len() == 0 {
        assert(a + b =~= a);
    } else {
        lemma_run_actions_append(s, a, b.drop_last(), ts);
        assert((a + b).drop_last() =~= a + b.drop_last());
        assert((a + b).last() == b.last());
    }
}

/// Updater determinism for the plain counter actions: from any state whose
/// counter is a machine integer not at the top of its range, `Increment`
/// then `Decrement` returns exactly to the starting state, whatever wall
/// times the two applications see; in particular the display string is
/// untouched. (At `i64::MAX` the increment saturates and the pair lands
/// one below the start, so that corner is left out.)
pub proof fn lemma_increment_then_decrement(s: AppView, ts1: int, ts2: int)
    requires
        i64::MIN <= s.counter < i64::MAX,
    ensures
        step(step(s, Action::Increment, ts1), Action::Decrement, ts2) == s,
{
}

/// Counter arithmetic: starting from `s`, `n` increments followed by `m`
/// decrements leave the counter at `s.counter + n - m`, provided the
/// trajectory stays inside the `i64` range — its highest point is right
/// after the increments, its lowest at the end.
pub proof fn lemma_counter_arithmetic(s: AppView, n: nat, m: nat, ts: int)
    requires
        i64::MIN <= s.counter,
        s.counter + n <= i64::MAX,
        i64::MIN <= s.counter + n - m,
    ensures
        run_actions(s, repeated(Action::Increment, n) + repeated(Action::Decrement, m),
            ts).counter == s.counter + n - m,
{
    lemma_run_actions_append(s, repeated(Action::Increment, n), repeated(Action::Decrement, m),
        ts);
    lemma_repeated_increments(s, n, ts);
    lemma_repeated_decrements(run_actions(s, repeated(Action::Increment, n), ts), m, ts);
}

/// `n` increments from a state with room for them raise the counter by `n`
/// and touch nothing else.
pub proof fn lemma_repeated_increments(s: AppView, n: nat, ts: int)
    requires
        i64::MIN <= s.counter,
        s.counter + n <= i64::MAX,
    ensures
        run_actions(s, repeated(Action::Increment, n), ts) == (AppView {
            counter: s.counter + n,
            ..s
        }),
    decreases n,
{
    if n == 0 {
    } else {
        lemma_repeated_increments(s, (n - 1) as nat, ts);
        assert(repeated(Action::Increment, n).drop_last() =~= repeated(Action::Increment, (n
            - 1) as nat));
    }
}

/// `m` decrements from a state with room for them lower the counter by `m`
/// and touch nothing else.
pub proof fn lemma_repeated_decrements(s: AppView, m: nat, ts: int)
    requires
        s.counter <= i64::MAX,
        i64::MIN <= s.counter - m,
    ensures
        run_actions(s, repeated(Action::Decrement, m), ts) == (AppView {
            counter: s.counter - m,
            ..s
        }),
    decreases m,
{
    if m == 0 {
    } else {
        lemma_repeated_decrements(s, (m - 1) as nat, ts);
        assert(repeated(Action::Decrement, m).drop_last() =~= repeated(Action::Decrement, (m
            - 1) as nat));
    }
}

/// Deferred action semantics: a network-request action mutates nothing at
/// the moment it is applied, and its whole announced effect is one
/// deferred posting of the matching counter action after the network
/// delay. (That the surrounding loop delivers the posting no earlier than
/// that delay is the loop's duty, outside this state model.)
pub proof fn lemma_deferred_actions(s: AppView, ts: int)
    ensures
        step(s, Action::NetworkRequestAndThenIncrement, ts) == s,
        step(s, Action::NetworkRequestAndThenDecrement, ts) == s,
        effects_of(Action::NetworkRequestAndThenIncrement) =~= seq![(Effect {
            delay_secs: NETWORK_DELAY_SECS,
            action: Action::Increment,
        })],
        effects_of(Action::NetworkRequestAndThenDecrement) =~= seq![(Effect {
            delay_secs: NETWORK_DELAY_SECS,
            action: Action::Decrement,
        })],
        NETWORK_DELAY_SECS == 5,
{
}

/// Render isolation: `Render` leaves the state untouched, and `Tick`
/// rewrites the display string to the wall time's Seoul rendering and
/// nothing else.
pub proof fn lemma_render_isolation(s: AppView, ts: int)
    ensures
        step(s, Action::Render, ts) == s,
        step(s, Action::Tick, ts) == (AppView {
            refresh_datetime: seoul_display_of(ts),
            ..s
        }),
        step(s, Action::Tick, ts).counter == s.counter,
        step(s, Action::Tick, ts).should_quit == s.should_quit,
{
}

/// Quit monotonicity: `Quit` raises the quit flag from any state, and once
/// the flag is up no single action lowers it.
pub proof fn lemma_quit_monotonic(s: AppView, a: Action, ts: int)
    ensures
        step(s, Action::Quit, ts).should_quit,
        s.should_quit ==> step(s, a, ts).should_quit,
{
}

/// Quit monotonicity over whole runs: once the flag is up, no sequence of
/// further actions lowers it.
pub proof fn lemma_quit_monotonic_run(s: AppView, actions: Seq<Action>, ts: int)
    requires
        s.should_quit,
    ensures
        run_actions(s, actions, ts).should_quit,
    decreases actions.len(),
{
    if actions.len() == 0 {
    } else {
        lemma_quit_monotonic_run(s, actions.drop_last(), ts);
        lemma_quit_monotonic(run_actions(s, actions.drop_last(), ts), actions.last(), ts);
    }
}

} // verus!
