use star_journey::game_over::{game_over_input, GameOverButton, GameOverCommand};
use star_journey::menu::{text_style, Interaction, MenuCursor, TextStyle};
use star_journey::pause::{pause_menu_button, pause_menu_input, PauseButton, PauseCommand, PAUSE_MAX_INDEX};
use star_journey::title::{
    title_button, title_buttons, title_input, title_max_index, MenuButton, TitleCommand,
};

#[test]
fn cursor_starts_on_first_item() {
    let c = MenuCursor::new(2);
    assert_eq!(c.active, 0);
    assert_eq!(c.max_index, 2);
}

#[test]
fn up_from_top_wraps_to_last() {
    let mut c = MenuCursor::new(2);
    c.navigate(true, false);
    assert_eq!(c.active, 2);
}

#[test]
fn down_from_last_wraps_to_top() {
    let mut c = MenuCursor::new(1);
    c.navigate(false, true);
    assert_eq!(c.active, 1);
    c.navigate(false, true);
    assert_eq!(c.active, 0);
}

#[test]
fn up_and_down_in_one_frame_cancel() {
    for start in 0..=2usize {
        let mut c = MenuCursor::new(2);
        c.hover(start);
        c.navigate(true, true);
        assert_eq!(c.active, start);
    }
}

#[test]
fn up_then_down_returns() {
    let mut c = MenuCursor::new(2);
    c.hover(1);
    c.navigate(true, false);
    assert_eq!(c.active, 0);
    c.navigate(false, true);
    assert_eq!(c.active, 1);
}

#[test]
fn down_full_cycle_returns() {
    let mut c = MenuCursor::new(2);
    c.hover(1);
    for _ in 0..3 {
        c.navigate(false, true);
    }
    assert_eq!(c.active, 1);
}

#[test]
fn single_item_menu_stays_put() {
    let mut c = MenuCursor::new(0);
    c.navigate(true, false);
    assert_eq!(c.active, 0);
    c.navigate(false, true);
    assert_eq!(c.active, 0);
}

#[test]
fn label_styles_follow_cursor() {
    assert_eq!(text_style(1, 1), TextStyle::Highlighted);
    assert_eq!(text_style(0, 1), TextStyle::Dimmed);
}

#[test]
fn title_menu_layout() {
    assert_eq!(
        title_buttons(true),
        vec![MenuButton::NewGame, MenuButton::Settings, MenuButton::Quit]
    );
    assert_eq!(title_buttons(false), vec![MenuButton::NewGame, MenuButton::Settings]);
    assert_eq!(title_max_index(true), 2);
    assert_eq!(title_max_index(false), 1);
    assert_eq!(MenuButton::NewGame.label(), "NEW GAME");
    assert_eq!(MenuButton::Settings.label(), "SETTINGS");
    assert_eq!(MenuButton::Quit.label(), "QUIT");
    assert_eq!(MenuButton::Quit.index(), 2);
}

#[test]
fn title_select_runs_item_under_cursor() {
    let mut c = MenuCursor::new(2);
    assert_eq!(title_input(&mut c, false, false, true), Some(TitleCommand::StartGame));
    assert_eq!(title_input(&mut c, false, true, true), Some(TitleCommand::OpenSettings));
    assert_eq!(title_input(&mut c, false, true, true), Some(TitleCommand::Quit));
    assert_eq!(title_input(&mut c, false, true, false), None);
    assert_eq!(c.active, 0);
}

#[test]
fn title_select_from_top_going_up_quits() {
    let mut c = MenuCursor::new(2);
    assert_eq!(title_input(&mut c, true, false, true), Some(TitleCommand::Quit));
}

#[test]
fn title_mouse_interactions() {
    let mut c = MenuCursor::new(2);
    let out = title_button(&mut c, Interaction::Hovered, MenuButton::Quit);
    assert_eq!(out.command, None);
    assert_eq!(out.text, Some(TextStyle::Highlighted));
    assert_eq!(c.active, 2);
    let out = title_button(&mut c, Interaction::Pressed, MenuButton::NewGame);
    assert_eq!(out.command, Some(TitleCommand::StartGame));
    assert_eq!(out.text, None);
    assert_eq!(c.active, 2);
    let out = title_button(&mut c, Interaction::Idle, MenuButton::Settings);
    assert_eq!(out.command, None);
    assert_eq!(out.text, Some(TextStyle::Dimmed));
}

#[test]
fn pause_menu_keyboard() {
    let mut c = MenuCursor::new(PAUSE_MAX_INDEX);
    assert_eq!(pause_menu_input(&mut c, false, false, true), Some(PauseCommand::Resume));
    assert_eq!(pause_menu_input(&mut c, false, true, true), Some(PauseCommand::BackToMenu));
    assert_eq!(pause_menu_input(&mut c, false, true, false), None);
    assert_eq!(c.active, 0);
}

#[test]
fn pause_menu_mouse() {
    let mut c = MenuCursor::new(PAUSE_MAX_INDEX);
    assert_eq!(pause_menu_button(&mut c, Interaction::Hovered, PauseButton::Menu), None);
    assert_eq!(c.active, 1);
    assert_eq!(
        pause_menu_button(&mut c, Interaction::Pressed, PauseButton::Resume),
        Some(PauseCommand::Resume)
    );
    assert_eq!(c.active, 1);
    assert_eq!(pause_menu_button(&mut c, Interaction::Idle, PauseButton::Resume), None);
    assert_eq!(PauseButton::Menu.label(), "BACK TO MENU");
}

#[test]
fn game_over_menu() {
    let mut c = MenuCursor::new(1);
    assert_eq!(game_over_input(&mut c, true, false, true), Some(GameOverCommand::BackToMenu));
    assert_eq!(game_over_input(&mut c, true, false, true), Some(GameOverCommand::Replay));
    assert_eq!(GameOverButton::Replay.label(), "REPLAY");
    assert_eq!(GameOverButton::BackToMenu.index(), 1);
}
