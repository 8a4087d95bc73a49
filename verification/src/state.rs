//! The three-state machine of the game and its timer. Each tick the host
//! framework reports whether a button edge and whether any input occurred
//! (see `input`), and the current reading of its monotonic clock, here in
//! whole milliseconds; the update functions decide the next state and
//! produce the text the presenter shows.

use vstd::prelude::*;
use vstd::string::StringExecFns;
use crate::input::spec_any_button;
use crate::input::spec_any_input;
use crate::time_format::format_time;
use crate::time_format::spec_format_time;

verus! {

/// The game is in exactly one of these states at a time.
#[derive(Clone, Copy, PartialEq, Eq, Structural, Debug, Hash)]
pub enum GameState {
    NotStarted,
    InProgress,
    GameOver,
}

impl Default for GameState {
    /// A fresh game has not started.
    fn default() -> (s: GameState)
        ensures
            s == GameState::NotStarted,
    {
        GameState::NotStarted
    }
}

/// The moment, on the host's monotonic clock in whole milliseconds, when
/// the most recent run of the game began; meaningful once the game has
/// left NotStarted, and rewritten at each NotStarted to InProgress move.
#[derive(Clone, Copy, PartialEq, Eq, Structural, Debug)]
pub struct GameTime {
    pub start_millis: u64,
}

impl Default for GameTime {
    /// Before any game has started the recorded start is zero.
    fn default() -> (t: GameTime)
        ensures
            t.start_millis == 0,
    {
        GameTime { start_millis: 0 }
    }
}

/// The whole seconds elapsed since the recorded start, at a clock reading
/// of `now_millis` milliseconds: the floor of the elapsed time in seconds.
pub open spec fn spec_elapsed_seconds(timer: GameTime, now_millis: u64) -> nat
    recommends
        timer.start_millis <= now_millis,
{
    (((now_millis - timer.start_millis)) / 1000) as nat
}

impl GameTime {
    /// The elapsed whole seconds at the given clock reading; the clock is
    /// monotonic, so it has not moved back before the recorded start.
    pub fn elapsed_seconds(&self, now_millis: u64) -> (r: u64)
        requires
            self.start_millis <= now_millis,
        ensures
            r == spec_elapsed_seconds(*self, now_millis),
    {
        (now_millis - self.start_millis) / 1000
    }
}

/// From NotStarted, any input at all starts the game.
pub open spec fn spec_not_started_next(input_occurred: bool) -> Option<GameState> {
    if input_occurred {
        Some(GameState::InProgress)
    } else {
        None
    }
}

/// From InProgress, any input at all (scroll and cursor movement
/// included) ends the game.
pub open spec fn spec_in_progress_next(input_occurred: bool) -> Option<GameState> {
    if input_occurred {
        Some(GameState::GameOver)
    } else {
        None
    }
}

/// From GameOver, only a button press (key or mouse button, scroll and
/// cursor movement excluded) returns to the start.
pub open spec fn spec_game_over_next(button_pressed: bool) -> Option<GameState> {
    if button_pressed {
        Some(GameState::NotStarted)
    } else {
        None
    }
}

/// The whole transition relation: `None` means the machine stays where it
/// is for this tick.
pub open spec fn spec_transition(
    state: GameState,
    button_pressed: bool,
    input_occurred: bool,
) -> Option<GameState> {
    match state {
        GameState::NotStarted => spec_not_started_next(input_occurred),
        GameState::InProgress => spec_in_progress_next(input_occurred),
        GameState::GameOver => spec_game_over_next(button_pressed),
    }
}

/// One NotStarted tick: on any input the game begins, and the timer
/// records the current clock reading as the start of this run.
pub fn not_started_update(timer: &mut GameTime, input_occurred: bool, now_millis: u64) -> (next:
    Option<GameState>)
    ensures
        next == spec_not_started_next(input_occurred),
        input_occurred ==> final(timer).start_millis == now_millis,
        !input_occurred ==> *final(timer) == *old(timer),
{
    if input_occurred {
        timer.start_millis = now_millis;
        Some(GameState::InProgress)
    } else {
        None
    }
}

/// One InProgress tick: the elapsed display is refreshed to the formatted
/// floor of the seconds since the recorded start, and on any input the
/// game ends.
pub fn in_progress_update(timer: &GameTime, input_occurred: bool, now_millis: u64) -> (r: (
    String,
    Option<GameState>,
))
    requires
        timer.start_millis <= now_millis,
    ensures
        r.0@ == spec_format_time(spec_elapsed_seconds(*timer, now_millis)),
        r.1 == spec_in_progress_next(input_occurred),
{
    let display = format_time(timer.elapsed_seconds(now_millis));
    let next = if input_occurred {
        Some(GameState::GameOver)
    } else {
        None
    };
    (display, next)
}

/// One GameOver tick: on any button press the game returns to the start.
pub fn game_over_update(button_pressed: bool) -> (next: Option<GameState>)
    ensures
        next == spec_game_over_next(button_pressed),
{
    if button_pressed {
        Some(GameState::NotStarted)
    } else {
        None
    }
}

/// The closing message, shown on entering GameOver: it names the elapsed
/// time of the run that just ended, formatted as on every tick.
pub fn game_over_text(timer: &GameTime, now_millis: u64) -> (s: String)
    requires
        timer.start_millis <= now_millis,
    ensures
        s@ == "You did something, you lost\nYou did nothing for "@ + spec_format_time(
            spec_elapsed_seconds(*timer, now_millis),
        ),
{
    let mut s = String::from_str("You did something, you lost\nYou did nothing for ");
    let t = format_time(timer.elapsed_seconds(now_millis));
    s.append(t.as_str());
    s
}

/// Starting in NotStarted, a tick among whose events is a key press
/// moves the machine to InProgress (and `not_started_update` states that
/// the timer then records that tick's clock reading); a later tick with
/// any input at all moves it to GameOver; a later tick with any button
/// press returns it to NotStarted — whatever the other events of those
/// three ticks were.
pub proof fn lemma_press_cycle(
    key1: Seq<Option<bool>>,
    mouse1: Seq<bool>,
    scroll1: usize,
    cursor1: usize,
    key2: Seq<Option<bool>>,
    mouse2: Seq<bool>,
    scroll2: usize,
    cursor2: usize,
    key3: Seq<Option<bool>>,
    mouse3: Seq<bool>,
    scroll3: usize,
    cursor3: usize,
)
    requires
        exists|i: int| 0 <= i < key1.len() && key1[i] == Some(true),
        spec_any_input(key2, mouse2, scroll2, cursor2),
        spec_any_button(key3, mouse3),
    ensures
        spec_transition(
            GameState::NotStarted,
            spec_any_button(key1, mouse1),
            spec_any_input(key1, mouse1, scroll1, cursor1),
        ) == Some(GameState::InProgress),
        spec_transition(
            GameState::InProgress,
            spec_any_button(key2, mouse2),
            spec_any_input(key2, mouse2, scroll2, cursor2),
        ) == Some(GameState::GameOver),
        spec_transition(
            GameState::GameOver,
            spec_any_button(key3, mouse3),
            spec_any_input(key3, mouse3, scroll3, cursor3),
        ) == Some(GameState::NotStarted),
{
}

} // verus!
