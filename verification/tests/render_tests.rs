use counter_tui::actions::Action;
use counter_tui::app::App;
use counter_tui::render::{i64_to_string, ui_lines, ui_title};
use counter_tui::updater::update;

#[test]
fn decimal_rendering_is_exact() {
    assert_eq!(i64_to_string(0), "0");
    assert_eq!(i64_to_string(7), "7");
    assert_eq!(i64_to_string(42), "42");
    assert_eq!(i64_to_string(1000), "1000");
    assert_eq!(i64_to_string(-1), "-1");
    assert_eq!(i64_to_string(-305), "-305");
    assert_eq!(i64_to_string(i64::MAX), "9223372036854775807");
    assert_eq!(i64_to_string(i64::MIN), "-9223372036854775808");
}

#[test]
fn lines_project_the_state() {
    let mut app = App::new(String::from("2024-06-01 12:00:00"));
    app.counter = -42;
    let lines = ui_lines(&app);
    assert_eq!(lines.len(), 3);
    assert_eq!(lines[0], "Press j or k to increment or decrement.");
    assert_eq!(lines[1], "Counter: -42");
    assert_eq!(lines[2], "last updated \"2024-06-01 12:00:00\"");
}

#[test]
fn lines_follow_a_tick() {
    let mut app = App::new(String::from(""));
    update(&mut app, Action::Tick, 0);
    let lines = ui_lines(&app);
    assert_eq!(lines[2], "last updated \"1970-01-01 09:00:00\"");
}

#[test]
fn identical_states_render_identically() {
    let mut one = App::new(String::from("1999-12-31 23:59:59"));
    one.counter = 3;
    let two = one.clone();
    assert_eq!(ui_lines(&one), ui_lines(&two));
}

#[test]
fn title_is_fixed() {
    assert_eq!(ui_title(), "ratatui async counter app");
}
