use star_journey::audio::{soundtrack_action, PlaySoundtrackEvent, Soundtrack, SoundtrackAction};
use star_journey::game::{GameFlow, GameStats, PLANET_END_Y2, PLANET_START_Y2};
use star_journey::game_over::GameOverCommand;
use star_journey::menu::MenuCursor;
use star_journey::pause::PauseCommand;
use star_journey::screens::{
    drop_frame, info_screen_transition, splash_transition, GameState, PauseState, Screen,
    DEVELOPER_REST_Y2, SPLASH_START_Y2, TITLE_REST_Y2,
};
use star_journey::title::TitleCommand;

fn playing() -> GameFlow {
    let mut f = GameFlow::new();
    f.set_screen(Screen::Game);
    f
}

#[test]
fn defaults() {
    assert_eq!(Screen::default(), Screen::Splash);
    assert_eq!(GameState::default(), GameState::Play);
    assert_eq!(PauseState::default(), PauseState::NotPaused);
    let f = GameFlow::new();
    assert_eq!(f.screen, Screen::Splash);
    assert_eq!(f.planet_y2, PLANET_START_Y2);
    assert!(!f.time_paused && !f.has_entered && !f.end_game);
}

#[test]
fn splash_leaves_for_title() {
    assert_eq!(splash_transition(false, false, false), None);
    assert_eq!(splash_transition(true, false, false), Some(Screen::Title));
    assert_eq!(splash_transition(false, true, false), Some(Screen::Title));
    assert_eq!(splash_transition(false, false, true), Some(Screen::Title));
    assert_eq!(info_screen_transition(false, false), None);
    assert_eq!(info_screen_transition(true, false), Some(Screen::Title));
    assert_eq!(info_screen_transition(false, true), Some(Screen::Title));
}

#[test]
fn pause_then_resume_round_trip() {
    let mut f = playing();
    let before = f;
    let mut c = MenuCursor::new(1);
    c.hover(1);
    f.pause(&mut c);
    assert_eq!(c.active, 0);
    assert!(f.time_paused);
    assert_eq!(f.pause_state, PauseState::Paused);
    f.resume();
    assert_eq!(f, before);
}

#[test]
fn pause_key_toggles() {
    let mut f = playing();
    let mut c = MenuCursor::new(1);
    f.toggle_pause(&mut c);
    assert!(f.time_paused);
    assert_eq!(f.pause_state, PauseState::Paused);
    f.toggle_pause(&mut c);
    assert!(!f.time_paused);
    assert_eq!(f.pause_state, PauseState::NotPaused);
}

#[test]
fn game_over_then_replay() {
    let mut f = playing();
    f.has_entered = true;
    f.end_game = true;
    f.planet_y2 = 10;
    f.game_over();
    assert_eq!(f.game_state, GameState::GameOver);
    assert!(f.time_paused);
    f.apply_game_over_command(GameOverCommand::Replay);
    assert_eq!(f.game_state, GameState::Play);
    assert_eq!(f.screen, Screen::Game);
    assert!(!f.time_paused && !f.has_entered && !f.end_game);
    assert_eq!(f.planet_y2, PLANET_START_Y2);
}

#[test]
fn back_to_menu_restarts_and_goes_to_title() {
    let mut f = playing();
    f.game_over();
    f.apply_game_over_command(GameOverCommand::BackToMenu);
    assert_eq!(f.screen, Screen::Title);
    assert_eq!(f.game_state, GameState::Play);
    let mut g = playing();
    let mut c = MenuCursor::new(1);
    g.pause(&mut c);
    g.apply_pause_command(PauseCommand::BackToMenu);
    assert_eq!(g.screen, Screen::Title);
    assert_eq!(g.pause_state, PauseState::NotPaused);
    assert!(!g.time_paused);
}

#[test]
fn restart_twice_is_restart_once() {
    let mut f = playing();
    f.game_over();
    f.restart();
    let once = f;
    f.restart();
    assert_eq!(f, once);
}

#[test]
fn title_commands() {
    let mut f = GameFlow::new();
    f.set_screen(Screen::Title);
    assert!(!f.apply_title_command(TitleCommand::OpenSettings));
    assert_eq!(f.screen, Screen::Title);
    assert!(f.apply_title_command(TitleCommand::Quit));
    assert_eq!(f.screen, Screen::Title);
    assert!(!f.apply_title_command(TitleCommand::StartGame));
    assert_eq!(f.screen, Screen::Game);
}

#[test]
fn journey_ends_after_planet_descent() {
    let mut f = playing();
    assert!(f.stopwatch_running());
    assert!(!f.planet_descending());
    let e = f.time_limit_reached();
    assert_eq!(e, PlaySoundtrackEvent { soundtrack: Soundtrack::End });
    assert!(f.planet_descending());
    for _ in 0..1000 {
        f.planet_step();
        assert_eq!(f.game_state, GameState::Play);
    }
    assert_eq!(f.planet_y2, PLANET_END_Y2);
    f.planet_step();
    assert_eq!(f.game_state, GameState::EndGame);
    assert_eq!(f.planet_y2, PLANET_END_Y2);
    assert!(f.time_paused);
    assert!(!f.planet_descending());
    assert!(!f.stopwatch_running());
}

#[test]
fn ship_entry_resets_counters() {
    let mut f = playing();
    assert!(f.ship_entering());
    f.end_game = true;
    let mut s = GameStats::new();
    s.shots_fired = 4;
    s.shots_hit = 2;
    f.ship_enter_step(&mut s, false);
    assert_eq!(s, GameStats::new());
    assert!(!f.end_game);
    assert!(f.ship_entering());
    f.ship_enter_step(&mut s, true);
    assert!(f.has_entered);
    assert!(!f.ship_entering());
}

#[test]
fn music_switching() {
    let battle = PlaySoundtrackEvent { soundtrack: Soundtrack::BattleTheme };
    assert_eq!(soundtrack_action(None, battle), SoundtrackAction::Spawn(Soundtrack::BattleTheme));
    assert_eq!(
        soundtrack_action(Some(Soundtrack::MainTheme), battle),
        SoundtrackAction::Switch(Soundtrack::BattleTheme)
    );
    assert_eq!(soundtrack_action(Some(Soundtrack::BattleTheme), battle), SoundtrackAction::Keep);
}

#[test]
fn splash_pictures_drop_into_place() {
    let (dropping, y) = drop_frame(true, false, SPLASH_START_Y2, TITLE_REST_Y2);
    assert!(dropping);
    assert_eq!(y, SPLASH_START_Y2);
    let (dropping, y) = drop_frame(true, true, SPLASH_START_Y2, TITLE_REST_Y2);
    assert!(dropping);
    assert_eq!(y, SPLASH_START_Y2 - 1);
    let (dropping, y) = drop_frame(true, true, DEVELOPER_REST_Y2 + 1, DEVELOPER_REST_Y2);
    assert!(!dropping);
    assert_eq!(y, DEVELOPER_REST_Y2);
    let (dropping, y) = drop_frame(false, true, 100, 0);
    assert!(!dropping);
    assert_eq!(y, 100);
}
