use vstd::prelude::*;

verus! {

/// The application state. Only the updater writes it; the renderer observes
/// it read-only. `should_quit` moves from `false` to `true` once and never
/// back. The handles the surrounding program needs (the action sender, the
/// data client) live with that program, outside this state, so every field
/// here is a plain value.
#[derive(Debug, Clone)]
pub struct App {
    pub counter: i64,
    pub should_quit: bool,
    pub refresh_datetime: String,
}

/// The mathematical content of an `App`: the counter as an unbounded
/// integer, the quit flag, and the last-refresh display string as a
/// character sequence.
pub ghost struct AppView {
    pub counter: int,
    pub should_quit: bool,
    pub refresh_datetime: Seq<char>,
}

impl View for App {
    type V = AppView;

    open spec fn view(&self) -> AppView {
        AppView {
            counter: self.counter as int,
            should_quit: self.should_quit,
            refresh_datetime: self.refresh_datetime@,
        }
    }
}

impl App {
    /// A fresh state: counter at zero, not quitting, showing the given
    /// last-refresh string.
    pub fn new(refresh_datetime: String) -> (app: App)
        ensures
            app@.counter == 0,
            !app@.should_quit,
            app@.refresh_datetime == refresh_datetime@,
    {
        App { counter: 0, should_quit: false, refresh_datetime }
    }
}

} // verus!
