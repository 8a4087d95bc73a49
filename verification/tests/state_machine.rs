use doing_nothing::state::game_over_text;
use doing_nothing::state::game_over_update;
use doing_nothing::state::in_progress_update;
use doing_nothing::state::not_started_update;
use doing_nothing::state::GameState;
use doing_nothing::state::GameTime;

#[test]
fn fresh_game_has_not_started() {
    assert_eq!(GameState::default(), GameState::NotStarted);
    assert_eq!(GameTime::default().start_millis, 0);
}

#[test]
fn press_cycle() {
    // A key press starts the game and records the timestamp; any further
    // input ends it; a further button press returns to the start screen.
    let mut timer = GameTime::default();
    let next = not_started_update(&mut timer, true, 5000);
    assert_eq!(next, Some(GameState::InProgress));
    assert_eq!(timer.start_millis, 5000);

    let (display, next) = in_progress_update(&timer, true, 12345);
    assert_eq!(display, "7 seconds");
    assert_eq!(next, Some(GameState::GameOver));

    let next = game_over_update(true);
    assert_eq!(next, Some(GameState::NotStarted));
}

#[test]
fn quiet_ticks_stay_put() {
    let mut timer = GameTime { start_millis: 42 };
    assert_eq!(not_started_update(&mut timer, false, 9999), None);
    assert_eq!(timer.start_millis, 42);

    let (_, next) = in_progress_update(&timer, false, 9999);
    assert_eq!(next, None);

    assert_eq!(game_over_update(false), None);
}

#[test]
fn restart_rewrites_the_start_time() {
    let mut timer = GameTime { start_millis: 1000 };
    let next = not_started_update(&mut timer, true, 250000);
    assert_eq!(next, Some(GameState::InProgress));
    assert_eq!(timer.start_millis, 250000);
}

#[test]
fn elapsed_display_is_the_floor_of_the_difference() {
    let timer = GameTime { start_millis: 5000 };
    let (display, _) = in_progress_update(&timer, false, 5000);
    assert_eq!(display, "0 seconds");
    let (display, _) = in_progress_update(&timer, false, 5999);
    assert_eq!(display, "0 seconds");
    let (display, _) = in_progress_update(&timer, false, 6000);
    assert_eq!(display, "1 second");
    let (display, _) = in_progress_update(&timer, false, 64999);
    assert_eq!(display, "59 seconds");
    let (display, _) = in_progress_update(&timer, false, 65000);
    assert_eq!(display, "1 minute");
}

#[test]
fn closing_message_names_the_elapsed_time() {
    let timer = GameTime { start_millis: 2000 };
    let s = game_over_text(&timer, 63000);
    assert_eq!(s, "You did something, you lost\nYou did nothing for 1 minute");
}
