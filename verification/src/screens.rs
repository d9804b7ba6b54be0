use vstd::prelude::*;

verus! {

/// The top-level screens of the game.
#[derive(PartialEq, Eq, Structural, Clone, Copy, Debug, Hash)]
pub enum Screen {
    Splash,
    HowToPlay,
    Title,
    Game,
    Credits,
}

impl Default for Screen {
    /// The game opens on the splash screen.
    fn default() -> (s: Self)
        ensures
            s == Screen::Splash,
    {
        Screen::Splash
    }
}

/// What the running game session is doing.
#[derive(PartialEq, Eq, Structural, Clone, Copy, Debug, Hash)]
pub enum GameState {
    Play,
    GameOver,
    EndGame,
}

impl Default for GameState {
    fn default() -> (s: Self)
        ensures
            s == GameState::Play,
    {
        GameState::Play
    }
}

/// Whether the pause menu is open.
#[derive(PartialEq, Eq, Structural, Clone, Copy, Debug, Hash)]
pub enum PauseState {
    NotPaused,
    Paused,
}

impl Default for PauseState {
    fn default() -> (s: Self)
        ensures
            s == PauseState::NotPaused,
    {
        PauseState::NotPaused
    }
}

/// The screen that the splash screen moves on to, if any: it leaves for the
/// title screen once its timer has run out or when the player presses
/// select or pause.
pub fn splash_transition(timer_finished: bool, select_pressed: bool, pause_pressed: bool) -> (next:
    Option<Screen>)
    ensures
        next == (if timer_finished || select_pressed || pause_pressed {
            Some(Screen::Title)
        } else {
            None
        }),
{
    if timer_finished || select_pressed || pause_pressed {
        Some(Screen::Title)
    } else {
        None
    }
}

/// The screen that an information screen (credits, how to play) moves on
/// to: back to the title screen on select or on a click of its button.
pub fn info_screen_transition(select_pressed: bool, button_pressed: bool) -> (next: Option<
    Screen,
>)
    ensures
        next == (if select_pressed || button_pressed {
            Some(Screen::Title)
        } else {
            None
        }),
{
    if select_pressed || button_pressed {
        Some(Screen::Title)
    } else {
        None
    }
}

/// The resting height of the title, in half pixels.
pub const TITLE_REST_Y2: i32 = 64;

/// The resting height of the developer's logo, in half pixels.
pub const DEVELOPER_REST_Y2: i32 = 0;

/// The starting height of the title and of the developer's logo, in half
/// pixels.
pub const SPLASH_START_Y2: i32 = 560;

/// The drop flag and height of a splash picture after one frame.
pub open spec fn dropped(dropping: bool, delay_finished: bool, y2: i32, rest_y2: i32) -> (bool, i32) {
    if dropping && delay_finished {
        if y2 - 1 <= rest_y2 {
            (false, rest_y2)
        } else {
            (true, (y2 - 1) as i32)
        }
    } else {
        (dropping, y2)
    }
}

/// One frame of a splash picture dropping into place: while it drops and
/// its delay has run out, it falls half a pixel, and once it is at or below
/// its resting height it rests there and stops dropping. The result is the
/// new drop flag and height.
pub fn drop_frame(dropping: bool, delay_finished: bool, y2: i32, rest_y2: i32) -> (r: (bool, i32))
    requires
        y2 > i32::MIN,
    ensures
        r == dropped(dropping, delay_finished, y2, rest_y2),
{
    if dropping && delay_finished {
        let y = y2 - 1;
        if y <= rest_y2 {
            (false, rest_y2)
        } else {
            (true, y)
        }
    } else {
        (dropping, y2)
    }
}

/// Law: a dropping picture never ends below its resting height if it
/// starts at or above it, and never rises.
pub proof fn lemma_drop_stays_above_rest(dropping: bool, delay_finished: bool, y2: i32, rest_y2: i32)
    requires
        y2 >= rest_y2,
        y2 > i32::MIN,
    ensures
        rest_y2 <= dropped(dropping, delay_finished, y2, rest_y2).1 <= y2,
{
}

} // verus!
