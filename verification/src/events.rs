use vstd::prelude::*;

verus! {

/// The key that a key press carried. Only character keys drive this
/// application; every other key is collapsed into `Other`, which the mapper
/// ignores. Modifier state is not tracked: an upper-case character already
/// stands for its shifted variant.
#[derive(Debug, Clone, Copy, PartialEq, Eq, Structural)]
pub enum KeyCode {
    Char(char),
    Other,
}

/// A low-level occurrence produced by the terminal or by the event source's
/// internal timers. `Tick` marks a logical clock step, `Render` a draw
/// request; the two cadences are independent.
#[derive(Debug, Clone, PartialEq)]
pub enum Event {
    Init,
    Quit,
    Error,
    Tick,
    Render,
    FocusGained,
    FocusLost,
    Paste(String),
    Key(KeyCode),
    Mouse,
    Resize(u16, u16),
}

} // verus!
