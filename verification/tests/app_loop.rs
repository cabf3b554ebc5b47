//! Behaviour of the application loop: dispatch wiring, termination, the
//! error paths, and the restoration invariant on every exit reason.

use tui_core::app::{App, Error, StepOutcome};
use tui_core::events::Event;
use tui_core::key::Key;
use tui_core::widget::{Button, Input};

type ConstButton = Button<Event, fn() -> Event>;

fn quit_view() -> Vec<ConstButton> {
    vec![ConstButton::new("Quit", Key::Char('q'), Event::Quit).unwrap()]
}

fn quit_on_quit(e: Event) -> bool {
    e == Event::Quit
}

#[test]
fn handle_event_forwards_the_dispatched_event() {
    let mut app = App::new(quit_view(), quit_on_quit as fn(Event) -> bool);
    assert!(app.handle_event(Input::KeyPress(Key::Char('q'))));
}

#[test]
fn handle_event_continues_without_a_match() {
    let mut app = App::new(quit_view(), quit_on_quit as fn(Event) -> bool);
    assert!(!app.handle_event(Input::KeyPress(Key::Char('x'))));
    assert!(!app.handle_event(Input::Other));
}

#[test]
fn handle_event_obeys_the_state_handler() {
    let mut app = App::new(
        vec![ConstButton::new("Count", Key::Char('c'), Event::Count(5)).unwrap()],
        |e: Event| e == Event::Count(9),
    );
    assert!(!app.handle_event(Input::KeyPress(Key::Char('c'))));
}

#[test]
fn app_draw_renders_every_widget_in_view_order() {
    let view = vec![
        ConstButton::new("Quit", Key::Char('q'), Event::Quit).unwrap(),
        ConstButton::new("Help", Key::F(1), Event::Count(0)).unwrap(),
    ];
    let app = App::new(view, quit_on_quit as fn(Event) -> bool);
    let spans = app.draw();
    assert_eq!(
        spans,
        vec![
            vec!["<Q>".to_string(), " Quit".to_string()],
            vec!["<F1>".to_string(), " Help".to_string()],
        ]
    );
}

#[test]
fn quit_scenario_ignores_one_non_match_then_quits() {
    let mut app = App::new(quit_view(), quit_on_quit as fn(Event) -> bool);
    let script = vec![
        StepOutcome::Input(Input::KeyPress(Key::Char('x'))),
        StepOutcome::Input(Input::KeyPress(Key::Char('q'))),
    ];
    let report = app.run_script(&script);
    assert_eq!(report.outcome, Some(Ok(())));
    assert_eq!(report.consumed, 2);
    assert_eq!(report.restores, 1);
}

#[test]
fn render_failure_is_fatal_and_restores_once() {
    let mut app = App::new(quit_view(), quit_on_quit as fn(Event) -> bool);
    let script = vec![StepOutcome::RenderFailed, StepOutcome::Input(Input::Other)];
    let report = app.run_script(&script);
    assert_eq!(report.outcome, Some(Err(Error::Render)));
    assert_eq!(report.consumed, 1);
    assert_eq!(report.restores, 1);
}

#[test]
fn read_failure_is_fatal_and_restores_once() {
    let mut app = App::new(quit_view(), quit_on_quit as fn(Event) -> bool);
    let script = vec![
        StepOutcome::Input(Input::KeyPress(Key::Char('x'))),
        StepOutcome::ReadFailed,
        StepOutcome::Input(Input::KeyPress(Key::Char('q'))),
    ];
    let report = app.run_script(&script);
    assert_eq!(report.outcome, Some(Err(Error::EventRead)));
    assert_eq!(report.consumed, 2);
    assert_eq!(report.restores, 1);
}

#[test]
fn non_matching_occurrences_never_end_the_run() {
    let mut app = App::new(quit_view(), quit_on_quit as fn(Event) -> bool);
    let script = vec![
        StepOutcome::Input(Input::KeyPress(Key::Char('a'))),
        StepOutcome::Input(Input::Other),
        StepOutcome::Input(Input::KeyPress(Key::F(3))),
    ];
    let report = app.run_script(&script);
    assert_eq!(report.outcome, None);
    assert_eq!(report.consumed, 3);
    assert_eq!(report.restores, 0);
}

#[test]
fn an_empty_script_neither_exits_nor_restores() {
    let mut app = App::new(quit_view(), quit_on_quit as fn(Event) -> bool);
    let report = app.run_script(&Vec::new());
    assert_eq!(report.outcome, None);
    assert_eq!(report.consumed, 0);
    assert_eq!(report.restores, 0);
}

#[test]
fn every_exit_reason_restores_exactly_once() {
    let scripts = vec![
        vec![StepOutcome::Input(Input::KeyPress(Key::Char('q')))],
        vec![StepOutcome::RenderFailed],
        vec![StepOutcome::Input(Input::KeyPress(Key::Char('z'))), StepOutcome::ReadFailed],
    ];
    for script in scripts {
        let mut app = App::new(quit_view(), quit_on_quit as fn(Event) -> bool);
        let report = app.run_script(&script);
        assert!(report.outcome.is_some());
        assert_eq!(report.restores, 1);
    }
}
