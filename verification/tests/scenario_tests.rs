use counter_tui::actions::{Action, Effect};
use counter_tui::app::App;
use counter_tui::events::{Event, KeyCode};
use counter_tui::mapper::route_event;
use counter_tui::updater::update;

/// A deterministic stand-in for the program's loop: a simulated wall clock,
/// the action queue, and the deferred postings with their due times. Events
/// are routed exactly as the loop routes them; deferred effects are posted
/// once the clock passes their due time.
struct Sim {
    app: App,
    clock: i64,
    queue: Vec<Action>,
    pending: Vec<(i64, Action)>,
    frames_drawn: usize,
}

impl Sim {
    fn new(start: i64) -> Sim {
        Sim {
            app: App::new(String::from("")),
            clock: start,
            queue: Vec::new(),
            pending: Vec::new(),
            frames_drawn: 0,
        }
    }

    fn feed(&mut self, event: Event) {
        if let Some(action) = route_event(&self.app, event) {
            self.queue.push(action);
        }
        self.drain();
    }

    fn drain(&mut self) {
        let due: Vec<Action> = {
            let clock = self.clock;
            let mut ripe = Vec::new();
            self.pending.retain(|(at, action)| {
                if *at <= clock {
                    ripe.push(*action);
                    false
                } else {
                    true
                }
            });
            ripe
        };
        for action in due {
            self.queue.push(action);
        }
        let actions: Vec<Action> = self.queue.drain(..).collect();
        for action in actions {
            let effects: Vec<Effect> = update(&mut self.app, action, self.clock);
            for effect in effects {
                self.pending.push((self.clock + effect.delay_secs as i64, effect.action));
            }
            if action == Action::Render {
                self.frames_drawn += 1;
            }
        }
    }

    fn advance(&mut self, seconds: i64) {
        self.clock += seconds;
        self.drain();
    }
}

#[test]
fn simple_increment() {
    // Feed [Tick, Key('j'), Render]: counter 1, exactly one frame drawn,
    // loop would continue.
    let mut sim = Sim::new(0);
    sim.feed(Event::Tick);
    sim.feed(Event::Key(KeyCode::Char('j')));
    sim.feed(Event::Render);
    assert_eq!(sim.app.counter, 1);
    assert_eq!(sim.frames_drawn, 1);
    assert!(!sim.app.should_quit);
}

#[test]
fn quit_exits_within_one_iteration() {
    let mut sim = Sim::new(0);
    sim.feed(Event::Key(KeyCode::Char('q')));
    assert!(sim.app.should_quit);
}

#[test]
fn deferred_increment_waits_five_seconds() {
    // Feed Key('J') at t0, then tick the clock forward: the counter stays 0
    // strictly before t0 + 5 and is 1 from the boundary on.
    let t0 = 1_000;
    let mut sim = Sim::new(t0);
    sim.feed(Event::Key(KeyCode::Char('J')));
    assert_eq!(sim.app.counter, 0);
    for _ in 0..4 {
        sim.advance(1);
        sim.feed(Event::Tick);
        assert_eq!(sim.app.counter, 0);
    }
    sim.advance(1);
    sim.feed(Event::Tick);
    assert_eq!(sim.app.counter, 1);
}

#[test]
fn interleaving_keeps_the_trajectory() {
    // Feed [Key('J'), Key('k'), Key('k')] immediately, then advance 5 s:
    // the counter runs 0 -> -1 -> -2 -> -1.
    let mut sim = Sim::new(0);
    sim.feed(Event::Key(KeyCode::Char('J')));
    assert_eq!(sim.app.counter, 0);
    sim.feed(Event::Key(KeyCode::Char('k')));
    assert_eq!(sim.app.counter, -1);
    sim.feed(Event::Key(KeyCode::Char('k')));
    assert_eq!(sim.app.counter, -2);
    sim.advance(5);
    assert_eq!(sim.app.counter, -1);
}

#[test]
fn unknown_key_changes_nothing() {
    let mut sim = Sim::new(0);
    let before = sim.app.refresh_datetime.clone();
    sim.feed(Event::Key(KeyCode::Char('z')));
    assert_eq!(sim.app.counter, 0);
    assert!(!sim.app.should_quit);
    assert_eq!(sim.app.refresh_datetime, before);
}

#[test]
fn tick_sets_the_displayed_clock() {
    // Feed [Tick] at a known wall time and read the formatted display.
    let mut sim = Sim::new(1_700_000_000);
    sim.feed(Event::Tick);
    assert_eq!(sim.app.refresh_datetime, "2023-11-15 07:13:20");
}
