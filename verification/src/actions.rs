use vstd::prelude::*;

verus! {

/// A high-level command applied to the application state. Actions are the
/// only vehicle through which the state changes; they are value-typed and
/// cheap to copy between tasks.
#[derive(Debug, Clone, Copy, PartialEq, Eq, Structural)]
pub enum Action {
    Tick,
    Increment,
    Decrement,
    NetworkRequestAndThenIncrement,
    NetworkRequestAndThenDecrement,
    Quit,
    Render,
    Noop,
}

/// A deferred piece of work that the updater hands back to the surrounding
/// loop: wait `delay_secs` seconds, then feed `action` back through the
/// action channel. The updater itself never blocks or sleeps.
#[derive(Debug, Clone, Copy, PartialEq, Eq, Structural)]
pub struct Effect {
    pub delay_secs: u64,
    pub action: Action,
}

} // verus!
