use nextup::app::{App, Command};
use nextup::config::Config;
use nextup::error::AppError;

fn config_with_duration(duration_ms: u64) -> Config {
    Config {
        title: "Team daily standup".to_string(),
        names_file: "team.txt".to_string(),
        duration_ms,
        hide_timer: false,
    }
}

fn roster(names: &[&str]) -> Vec<String> {
    names.iter().map(|n| n.to_string()).collect()
}

#[test]
fn init_sizes_timers_to_roster() {
    let app = App::new(
        config_with_duration(60_000),
        roster(&["Alice", "Bob", "Carol"]),
        true,
        0,
    )
    .unwrap();
    assert_eq!(app.per_person_timers().len(), app.names().len());
    assert_eq!(app.per_person_timers(), &vec![0u64, 0, 0]);
    assert_eq!(app.current_person_index(), 0);
    assert!(app.is_dark_background());
    assert!(!app.should_quit());
    assert_eq!(app.config().duration_ms, 60_000);
}

#[test]
fn init_rejects_empty_roster() {
    let r = App::new(config_with_duration(60_000), Vec::new(), true, 0);
    assert!(matches!(r, Err(AppError::NoNamesFound)));
}

#[test]
fn timer_alignment_survives_every_command() {
    let mut app = App::new(
        config_with_duration(60_000),
        roster(&["Alice", "Bob", "Carol"]),
        true,
        0,
    )
    .unwrap();
    for cmd in [
        Command::Next,
        Command::Previous,
        Command::ResetTimer,
        Command::Reshuffle,
        Command::Quit,
    ] {
        app.handle_command(cmd, 1_000);
        assert_eq!(app.per_person_timers().len(), app.names().len());
    }
}

#[test]
fn navigation_clamps_at_both_ends() {
    let mut app =
        App::new(config_with_duration(60_000), roster(&["Alice", "Bob"]), true, 0).unwrap();
    assert_eq!(app.current_person_index(), 0);
    app.handle_command(Command::Next, 0);
    assert_eq!(app.current_person_index(), 1);
    app.handle_command(Command::Next, 0);
    assert_eq!(app.current_person_index(), 1);
    app.handle_command(Command::Previous, 0);
    assert_eq!(app.current_person_index(), 0);
    app.handle_command(Command::Previous, 0);
    assert_eq!(app.current_person_index(), 0);
}

#[test]
fn elapsed_time_goes_to_selected_person_only() {
    let mut app =
        App::new(config_with_duration(60_000), roster(&["Alice", "Bob"]), true, 0).unwrap();
    app.update_per_person_timers(7);
    assert_eq!(app.per_person_timers(), &vec![7u64, 0]);
    app.handle_command(Command::Next, 7);
    app.update_per_person_timers(12);
    assert_eq!(app.per_person_timers(), &vec![7u64, 5]);
}

#[test]
fn reshuffle_keeps_the_name_multiset() {
    let mut app = App::new(
        config_with_duration(60_000),
        roster(&["Bob", "Alice", "Bob"]),
        true,
        0,
    )
    .unwrap();
    app.update_per_person_timers(9_000);
    let mut before = app.names().clone();
    app.handle_command(Command::Reshuffle, 9_000);
    let mut after = app.names().clone();
    before.sort();
    after.sort();
    assert_eq!(before, after);
    assert_eq!(app.per_person_timers(), &vec![0u64, 0, 0]);
    assert_eq!(app.current_person_index(), 0);
}

#[test]
fn reshuffle_eventually_changes_the_order() {
    let names: Vec<String> = (0..10).map(|i| format!("person{}", i)).collect();
    let mut app = App::new(config_with_duration(60_000), names.clone(), true, 0).unwrap();
    let mut changed = false;
    for _ in 0..100 {
        app.handle_command(Command::Reshuffle, 0);
        if app.names() != &names {
            changed = true;
            break;
        }
    }
    assert!(changed);
}

#[test]
fn remaining_time_counts_down_and_clamps() {
    let mut app =
        App::new(config_with_duration(60_000), roster(&["Alice"]), true, 0).unwrap();
    assert_eq!(app.remaining_time(0), 60_000);
    assert_eq!(app.remaining_time(10_000), 50_000);
    assert_eq!(app.remaining_time(30_000), 30_000);
    assert_eq!(app.remaining_time(60_000), 0);
    assert_eq!(app.remaining_time(90_000), 0);
    app.reset_timer(90_000);
    assert_eq!(app.remaining_time(90_000), 60_000);
}

#[test]
fn reset_timer_command_re_anchors_and_zeroes() {
    let mut app =
        App::new(config_with_duration(60_000), roster(&["Alice", "Bob"]), true, 0).unwrap();
    app.update_per_person_timers(20_000);
    assert_eq!(app.per_person_timers(), &vec![20_000u64, 0]);
    app.handle_command(Command::ResetTimer, 20_000);
    assert_eq!(app.per_person_timers(), &vec![0u64, 0]);
    assert_eq!(app.current_person_index(), 0);
    assert_eq!(app.remaining_time(20_000), 60_000);
    assert_eq!(app.names(), &roster(&["Alice", "Bob"]));
}

#[test]
fn quit_command_raises_the_flag() {
    let mut app =
        App::new(config_with_duration(60_000), roster(&["Alice"]), true, 0).unwrap();
    assert!(!app.should_quit());
    app.handle_command(Command::Quit, 0);
    assert!(app.should_quit());
}

#[test]
fn end_to_end_two_person_meeting() {
    let mut app = App::new(
        config_with_duration(60_000),
        roster(&["Alice", "Bob"]),
        true,
        0,
    )
    .unwrap();
    assert_eq!(app.current_person_index(), 0);
    assert_eq!(app.per_person_timers(), &vec![0u64, 0]);
    assert_eq!(app.remaining_time(0), 60_000);

    app.handle_command(Command::Next, 0);
    assert_eq!(app.current_person_index(), 1);

    app.update_per_person_timers(10_000);
    assert_eq!(app.per_person_timers(), &vec![0u64, 10_000]);
    assert_eq!(app.remaining_time(10_000), 50_000);

    app.handle_command(Command::Reshuffle, 10_000);
    assert_eq!(app.per_person_timers(), &vec![0u64, 0]);
    assert_eq!(app.current_person_index(), 0);
    // The Reshuffle command also re-anchors the meeting countdown.
    assert_eq!(app.remaining_time(10_000), 60_000);

    app.handle_command(Command::ResetTimer, 10_000);
    assert_eq!(app.remaining_time(10_000), 60_000);
    assert_eq!(app.per_person_timers(), &vec![0u64, 0]);

    app.handle_command(Command::Quit, 10_000);
    assert!(app.should_quit());
}

#[test]
fn error_messages() {
    assert_eq!(AppError::NoNamesFound.message(), "No names found in file");
    assert_eq!(
        AppError::NamesFileError("boom".to_string()).message(),
        "Failed to read names file: boom"
    );
}

#[test]
fn default_config_values() {
    let c = Config::default();
    assert_eq!(c.title, "Team daily standup");
    assert_eq!(c.names_file, "team.txt");
    assert_eq!(c.duration_ms, 900_000);
    assert!(!c.hide_timer);
}
