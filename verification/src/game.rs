use vstd::prelude::*;
use crate::audio::{PlaySfxEvent, PlaySoundtrackEvent, SoundEffect, Soundtrack};
use crate::menu::MenuCursor;
use crate::pause::PauseCommand;
use crate::game_over::GameOverCommand;
use crate::title::TitleCommand;
use crate::screens::{GameState, PauseState, Screen};

verus! {

/// The counters of a game session, shown on the game over screen.
#[derive(PartialEq, Eq, Structural, Clone, Copy, Debug)]
pub struct GameStats {
    pub asteroids_destroyed: u32,
    pub distance_traveled: u32,
    pub shots_fired: u32,
    pub shots_hit: u32,
}

impl GameStats {
    pub open spec fn is_zero(&self) -> bool {
        &&& self.asteroids_destroyed == 0
        &&& self.distance_traveled == 0
        &&& self.shots_fired == 0
        &&& self.shots_hit == 0
    }

    /// All counters at zero.
    pub fn new() -> (s: Self)
        ensures
            s.is_zero(),
    {
        GameStats { asteroids_destroyed: 0, distance_traveled: 0, shots_fired: 0, shots_hit: 0 }
    }

    /// Sets all counters back to zero.
    pub fn reset(&mut self)
        ensures
            final(self).is_zero(),
    {
        self.asteroids_destroyed = 0;
        self.distance_traveled = 0;
        self.shots_fired = 0;
        self.shots_hit = 0;
    }
}

/// The rows of the statistics table of the game over screen.
#[derive(PartialEq, Eq, Structural, Clone, Copy, Debug, Hash)]
pub enum StatKind {
    DistanceTraveled,
    ShotsFired,
    ShotsHit,
    AsteroidsDestroyed,
}

impl StatKind {
    /// The row's label.
    pub fn label(&self) -> (s: &'static str)
        ensures
            s@ == (match self {
                StatKind::DistanceTraveled => "DISTANCE TRAVELED"@,
                StatKind::ShotsFired => "SHOTS FIRED"@,
                StatKind::ShotsHit => "SHOTS HIT"@,
                StatKind::AsteroidsDestroyed => "ASTEROIDS DESTROYED"@,
            }),
    {
        match self {
            StatKind::DistanceTraveled => "DISTANCE TRAVELED",
            StatKind::ShotsFired => "SHOTS FIRED",
            StatKind::ShotsHit => "SHOTS HIT",
            StatKind::AsteroidsDestroyed => "ASTEROIDS DESTROYED",
        }
    }
}

/// The statistics table of the game over screen, top to bottom.
pub fn stat_rows(stats: &GameStats) -> (rows: Vec<(StatKind, u32)>)
    ensures
        rows@ == seq![
            (StatKind::DistanceTraveled, stats.distance_traveled),
            (StatKind::ShotsFired, stats.shots_fired),
            (StatKind::ShotsHit, stats.shots_hit),
            (StatKind::AsteroidsDestroyed, stats.asteroids_destroyed),
        ],
{
    let mut rows = Vec::new();
    rows.push((StatKind::DistanceTraveled, stats.distance_traveled));
    rows.push((StatKind::ShotsFired, stats.shots_fired));
    rows.push((StatKind::ShotsHit, stats.shots_hit));
    rows.push((StatKind::AsteroidsDestroyed, stats.asteroids_destroyed));
    rows
}

/// The planet's height at the start of a session, in half pixels.
pub const PLANET_START_Y2: i32 = 800;

/// The planet's resting height at the end of the journey, in half pixels.
pub const PLANET_END_Y2: i32 = -200;

/// The state of the screens and of the game session: which screen is shown,
/// whether the session plays, is over or has ended, whether it is paused,
/// whether the ship has finished flying in, whether the journey's time is
/// up, and the height of the planet (in half pixels) that comes into view
/// at the end of the journey.
#[derive(PartialEq, Eq, Structural, Clone, Copy, Debug)]
pub struct GameFlow {
    pub screen: Screen,
    pub game_state: GameState,
    pub pause_state: PauseState,
    /// Whether the game clock is stopped.
    pub time_paused: bool,
    /// Whether the ship has finished its flight onto the screen.
    pub has_entered: bool,
    /// Whether the journey's time is up and the planet comes into view.
    pub end_game: bool,
    /// The planet's height, in half pixels.
    pub planet_y2: i32,
}

/// The flow after the session has been restarted: playing, not paused, the
/// ship flies in again and the planet is back out of view.
pub open spec fn after_restart(f: GameFlow) -> GameFlow {
    GameFlow {
        game_state: GameState::Play,
        pause_state: PauseState::NotPaused,
        time_paused: false,
        has_entered: false,
        end_game: false,
        planet_y2: PLANET_START_Y2,
        ..f
    }
}

/// The flow after the pause menu has been opened.
pub open spec fn after_pause(f: GameFlow) -> GameFlow {
    GameFlow { time_paused: true, pause_state: PauseState::Paused, ..f }
}

/// The flow after the pause menu has been closed.
pub open spec fn after_resume(f: GameFlow) -> GameFlow {
    GameFlow { time_paused: false, pause_state: PauseState::NotPaused, ..f }
}

/// The flow after one frame of the planet's descent.
pub open spec fn after_planet_step(f: GameFlow) -> GameFlow {
    if f.planet_y2 - 1 < PLANET_END_Y2 {
        GameFlow {
            planet_y2: PLANET_END_Y2,
            time_paused: true,
            game_state: GameState::EndGame,
            ..f
        }
    } else {
        GameFlow { planet_y2: (f.planet_y2 - 1) as i32, ..f }
    }
}

impl GameFlow {
    /// The flow when the application starts: the splash screen, a fresh
    /// session.
    pub fn new() -> (f: Self)
        ensures
            f.screen == Screen::Splash,
            f.game_state == GameState::Play,
            f.pause_state == PauseState::NotPaused,
            !f.time_paused,
            !f.has_entered,
            !f.end_game,
            f.planet_y2 == PLANET_START_Y2,
    {
        GameFlow {
            screen: Screen::Splash,
            game_state: GameState::Play,
            pause_state: PauseState::NotPaused,
            time_paused: false,
            has_entered: false,
            end_game: false,
            planet_y2: PLANET_START_Y2,
        }
    }

    /// Moves to another screen.
    pub fn set_screen(&mut self, screen: Screen)
        ensures
            *final(self) == (GameFlow { screen, ..*old(self) }),
    {
        self.screen = screen;
    }

    /// Restarts the session: playing, not paused, clock running, the ship
    /// flies in again, the journey's time is not up and the planet is back
    /// out of view. (The application clears asteroids and projectiles and
    /// puts the ship back at its start.)
    pub fn restart(&mut self)
        ensures
            *final(self) == after_restart(*old(self)),
    {
        self.end_game = false;
        self.pause_state = PauseState::NotPaused;
        self.planet_y2 = PLANET_START_Y2;
        self.has_entered = false;
        self.game_state = GameState::Play;
        self.time_paused = false;
    }

    /// Restarts the session and goes back to the title screen.
    pub fn back_to_menu(&mut self)
        ensures
            *final(self) == (GameFlow { screen: Screen::Title, ..after_restart(*old(self)) }),
    {
        self.restart();
        self.screen = Screen::Title;
    }

    /// Opens the pause menu: the clock stops and the menu's cursor goes to
    /// its first item.
    pub fn pause(&mut self, cursor: &mut MenuCursor)
        ensures
            *final(self) == after_pause(*old(self)),
            final(cursor).active == 0,
            final(cursor).max_index == old(cursor).max_index,
    {
        cursor.reset();
        self.time_paused = true;
        self.pause_state = PauseState::Paused;
    }

    /// Closes the pause menu: the clock runs again.
    pub fn resume(&mut self)
        ensures
            *final(self) == after_resume(*old(self)),
    {
        self.time_paused = false;
        self.pause_state = PauseState::NotPaused;
    }

    /// The pause key while playing: resumes if the clock is stopped, pauses
    /// otherwise.
    pub fn toggle_pause(&mut self, cursor: &mut MenuCursor)
        ensures
            *final(self) == (if old(self).time_paused {
                after_resume(*old(self))
            } else {
                after_pause(*old(self))
            }),
            !old(self).time_paused ==> final(cursor).active == 0,
            old(self).time_paused ==> *final(cursor) == *old(cursor),
            final(cursor).max_index == old(cursor).max_index,
    {
        if self.time_paused {
            self.resume();
        } else {
            self.pause(cursor);
        }
    }

    /// The ship has no shield left and was hit: the clock stops and the game
    /// is over.
    pub fn game_over(&mut self)
        ensures
            *final(self) == (GameFlow {
                time_paused: true,
                game_state: GameState::GameOver,
                ..*old(self)
            }),
    {
        self.time_paused = true;
        self.game_state = GameState::GameOver;
    }

    /// Whether the session clock counts the journey's time: the game plays
    /// and is not paused.
    pub fn stopwatch_running(&self) -> (b: bool)
        ensures
            b == (self.game_state == GameState::Play && self.pause_state
                == PauseState::NotPaused),
    {
        self.game_state == GameState::Play && self.pause_state == PauseState::NotPaused
    }

    /// The journey's time has reached its limit: from now on the planet
    /// comes into view, and the closing theme is asked for.
    pub fn time_limit_reached(&mut self) -> (e: PlaySoundtrackEvent)
        ensures
            *final(self) == (GameFlow { end_game: true, ..*old(self) }),
            e == (PlaySoundtrackEvent { soundtrack: Soundtrack::End }),
    {
        self.end_game = true;
        PlaySoundtrackEvent { soundtrack: Soundtrack::End }
    }

    /// Whether the planet descends this frame: the game plays, is not
    /// paused, and the journey's time is up.
    pub fn planet_descending(&self) -> (b: bool)
        ensures
            b == (self.game_state == GameState::Play && self.pause_state
                == PauseState::NotPaused && self.end_game),
    {
        self.game_state == GameState::Play && self.pause_state == PauseState::NotPaused
            && self.end_game
    }

    /// One frame of the planet's descent by half a pixel; once it sinks
    /// below its resting height it rests there, the clock stops and the
    /// journey has ended.
    pub fn planet_step(&mut self)
        requires
            old(self).planet_y2 > i32::MIN,
        ensures
            *final(self) == after_planet_step(*old(self)),
    {
        self.planet_y2 = self.planet_y2 - 1;
        if self.planet_y2 < PLANET_END_Y2 {
            self.planet_y2 = PLANET_END_Y2;
            self.time_paused = true;
            self.game_state = GameState::EndGame;
        }
    }

    /// Whether the ship is still flying onto the screen this frame.
    pub fn ship_entering(&self) -> (b: bool)
        ensures
            b == (self.screen == Screen::Game && self.game_state == GameState::Play
                && !self.has_entered),
    {
        self.screen == Screen::Game && self.game_state == GameState::Play && !self.has_entered
    }

    /// One frame of the ship's flight onto the screen: the session counters
    /// start again from zero, the journey's time is not up, and once the
    /// ship has reached its place (`arrived`) the flight is over.
    pub fn ship_enter_step(&mut self, stats: &mut GameStats, arrived: bool)
        ensures
            *final(self) == (GameFlow {
                end_game: false,
                has_entered: old(self).has_entered || arrived,
                ..*old(self)
            }),
            final(stats).is_zero(),
    {
        stats.reset();
        self.end_game = false;
        if arrived {
            self.has_entered = true;
        }
    }
}

impl GameFlow {
    /// Runs a command of the pause menu: resume, or restart and go back to
    /// the title screen.
    pub fn apply_pause_command(&mut self, cmd: PauseCommand)
        ensures
            *final(self) == (match cmd {
                PauseCommand::Resume => after_resume(*old(self)),
                PauseCommand::BackToMenu => GameFlow {
                    screen: Screen::Title,
                    ..after_restart(*old(self))
                },
            }),
    {
        match cmd {
            PauseCommand::Resume => self.resume(),
            PauseCommand::BackToMenu => self.back_to_menu(),
        }
    }

    /// Runs a command of the game over menu: restart, or restart and go back
    /// to the title screen.
    pub fn apply_game_over_command(&mut self, cmd: GameOverCommand)
        ensures
            *final(self) == (match cmd {
                GameOverCommand::Replay => after_restart(*old(self)),
                GameOverCommand::BackToMenu => GameFlow {
                    screen: Screen::Title,
                    ..after_restart(*old(self))
                },
            }),
    {
        match cmd {
            GameOverCommand::Replay => self.restart(),
            GameOverCommand::BackToMenu => self.back_to_menu(),
        }
    }

    /// Runs a command of the title menu: a new game goes to the game
    /// screen; the result says whether the player asked to quit (settings
    /// only report the press).
    pub fn apply_title_command(&mut self, cmd: TitleCommand) -> (quit: bool)
        ensures
            *final(self) == (if cmd == TitleCommand::StartGame {
                GameFlow { screen: Screen::Game, ..*old(self) }
            } else {
                *old(self)
            }),
            quit == (cmd == TitleCommand::Quit),
    {
        match cmd {
            TitleCommand::StartGame => {
                self.screen = Screen::Game;
                false
            },
            TitleCommand::OpenSettings => false,
            TitleCommand::Quit => true,
        }
    }
}

impl GameFlow {
    /// Whether the ship, its shots, the asteroids and the shield are
    /// simulated: on the game screen.
    pub fn gameplay_active(&self) -> (b: bool)
        ensures
            b == (self.screen == Screen::Game),
    {
        self.screen == Screen::Game
    }

    /// Whether the asteroid spawn timer runs: not once the journey's time is
    /// up.
    pub fn asteroid_timer_runs(&self) -> (b: bool)
        ensures
            b == !self.end_game,
    {
        !self.end_game
    }

    /// Whether the pause key is listened to: on the game screen while the
    /// game plays.
    pub fn pause_key_active(&self) -> (b: bool)
        ensures
            b == (self.screen == Screen::Game && self.game_state == GameState::Play),
    {
        self.screen == Screen::Game && self.game_state == GameState::Play
    }

    /// Whether the pause menu takes input: on the game screen while paused.
    pub fn pause_menu_active(&self) -> (b: bool)
        ensures
            b == (self.screen == Screen::Game && self.pause_state == PauseState::Paused),
    {
        self.screen == Screen::Game && self.pause_state == PauseState::Paused
    }

    /// Whether the game over menu takes input: on the game screen once the
    /// game is over.
    pub fn game_over_menu_active(&self) -> (b: bool)
        ensures
            b == (self.screen == Screen::Game && self.game_state == GameState::GameOver),
    {
        self.screen == Screen::Game && self.game_state == GameState::GameOver
    }
}

/// Law: restarting twice is restarting once.
pub proof fn lemma_restart_idempotent(f: GameFlow)
    ensures
        after_restart(after_restart(f)) == after_restart(f),
{
}

/// Law: closing the pause menu right after opening it gives back the state
/// of a running game.
pub proof fn lemma_pause_resume_roundtrip(f: GameFlow)
    requires
        !f.time_paused,
        f.pause_state == PauseState::NotPaused,
    ensures
        after_resume(after_pause(f)) == f,
{
}

/// Law: the planet never sinks below its resting height.
pub proof fn lemma_planet_stays_above_rest(f: GameFlow)
    requires
        f.planet_y2 >= PLANET_END_Y2,
    ensures
        after_planet_step(f).planet_y2 >= PLANET_END_Y2,
        after_planet_step(f).planet_y2 <= f.planet_y2,
{
}

/// The flow after `n` frames of the planet's descent.
pub open spec fn planet_steps(f: GameFlow, n: nat) -> GameFlow
    decreases n,
{
    if n == 0 {
        f
    } else {
        after_planet_step(planet_steps(f, (n - 1) as nat))
    }
}

/// While the planet is above its resting height it sinks half a pixel per
/// frame and nothing else changes.
proof fn lemma_planet_descends(f: GameFlow, n: nat)
    requires
        f.planet_y2 - n >= PLANET_END_Y2,
    ensures
        planet_steps(f, n) == (GameFlow { planet_y2: (f.planet_y2 - n) as i32, ..f }),
    decreases n,
{
    if n > 0 {
        lemma_planet_descends(f, (n - 1) as nat);
    }
}

/// Law: from the start of a session the journey ends on the planet's
/// 1001st frame of descent and not before: the planet rests at its
/// resting height, the clock stops and the game state is the end of the
/// journey.
pub proof fn lemma_journey_ends_after_descent(f: GameFlow)
    requires
        f.planet_y2 == PLANET_START_Y2,
        f.game_state == GameState::Play,
    ensures
        planet_steps(f, 1000).game_state == GameState::Play,
        planet_steps(f, 1001).game_state == GameState::EndGame,
        planet_steps(f, 1001).planet_y2 == PLANET_END_Y2,
        planet_steps(f, 1001).time_paused,
{
    lemma_planet_descends(f, 1000);
}

/// The look of the ship's thruster.
#[derive(PartialEq, Eq, Structural, Clone, Copy, Debug, Hash)]
pub enum Thruster {
    Slow,
    Default,
    Fast,
}

/// The direction the player asks the ship to move in, each coordinate -1, 0
/// or 1 (up is positive).
pub fn movement_intent(up: bool, down: bool, left: bool, right: bool) -> (d: (i8, i8))
    ensures
        d.0 == (if right {
            1int
        } else {
            0int
        }) - (if left {
            1int
        } else {
            0int
        }),
        d.1 == (if up {
            1int
        } else {
            0int
        }) - (if down {
            1int
        } else {
            0int
        }),
{
    let mut x: i8 = 0;
    let mut y: i8 = 0;
    if up {
        y = y + 1;
    }
    if down {
        y = y - 1;
    }
    if left {
        x = x - 1;
    }
    if right {
        x = x + 1;
    }
    (x, y)
}

/// The thruster for a vertical intent: fast going up, slow going down.
pub fn thruster_for(dy: i8) -> (t: Thruster)
    ensures
        t == (if dy > 0 {
            Thruster::Fast
        } else if dy < 0 {
            Thruster::Slow
        } else {
            Thruster::Default
        }),
{
    if dy > 0 {
        Thruster::Fast
    } else if dy < 0 {
        Thruster::Slow
    } else {
        Thruster::Default
    }
}

/// The most shield the ship can hold.
pub const MAX_SHIELD: u8 = 2;

/// The player's ship: whether its gun is loaded and how much shield it has.
/// (Its reload, shield regeneration and hit cooldown timers run in the
/// application.)
#[derive(PartialEq, Eq, Structural, Clone, Copy, Debug)]
pub struct Player {
    pub can_shoot: bool,
    pub shield: u8,
}

impl Player {
    /// The shield is within its capacity.
    pub open spec fn wf(&self) -> bool {
        self.shield <= MAX_SHIELD
    }

    /// A ship with a loaded gun and a full shield.
    pub fn new() -> (p: Self)
        ensures
            p.can_shoot,
            p.shield == MAX_SHIELD,
            p.wf(),
    {
        Player { can_shoot: true, shield: MAX_SHIELD }
    }
}

/// One frame of the gun: it is loaded again once the reload timer has
/// finished; if the player shoots with a loaded gun, it fires, the gun is
/// empty, the shot is counted and the shooting sound is asked for.
pub fn fire_step(
    player: &mut Player,
    stats: &mut GameStats,
    reload_finished: bool,
    shoot_pressed: bool,
) -> (sfx: Option<PlaySfxEvent>)
    requires
        shoot_pressed && (old(player).can_shoot || reload_finished) ==> old(stats).shots_fired
            < u32::MAX,
    ensures
        ({
            let loaded = old(player).can_shoot || reload_finished;
            let fired = shoot_pressed && loaded;
            &&& final(player).shield == old(player).shield
            &&& final(player).can_shoot == (loaded && !fired)
            &&& *final(stats) == (GameStats {
                shots_fired: (if fired {
                    old(stats).shots_fired + 1
                } else {
                    old(stats).shots_fired as int
                }) as u32,
                ..*old(stats)
            })
            &&& sfx == (if fired {
                Some(PlaySfxEvent { sfx: SoundEffect::Shoot })
            } else {
                None
            })
        }),
{
    if reload_finished {
        player.can_shoot = true;
    }
    if shoot_pressed && player.can_shoot {
        player.can_shoot = false;
        stats.shots_fired = stats.shots_fired + 1;
        Some(PlaySfxEvent { sfx: SoundEffect::Shoot })
    } else {
        None
    }
}

/// The picture of the ship's shield.
#[derive(PartialEq, Eq, Structural, Clone, Copy, Debug, Hash)]
pub enum ShieldSprite {
    Empty,
    Low,
    Full,
}

/// The picture for a shield level, for the levels that have one.
pub open spec fn shield_sprite_for(level: u8) -> Option<ShieldSprite> {
    if level == 0 {
        Some(ShieldSprite::Empty)
    } else if level == 1 {
        Some(ShieldSprite::Low)
    } else if level == 2 {
        Some(ShieldSprite::Full)
    } else {
        None
    }
}

/// One frame of shield regeneration: when the regeneration timer has just
/// finished, the shield gains a point up to its capacity and its picture is
/// updated. (The application restarts the timer.)
pub fn shield_regen(player: &mut Player, regen_just_finished: bool) -> (sprite: Option<
    ShieldSprite,
>)
    requires
        regen_just_finished ==> old(player).shield < u8::MAX,
    ensures
        final(player).can_shoot == old(player).can_shoot,
        regen_just_finished ==> final(player).shield == regen_level(old(player).shield),
        regen_just_finished ==> sprite == shield_sprite_for(final(player).shield),
        !regen_just_finished ==> *final(player) == *old(player) && sprite.is_none(),
{
    if regen_just_finished {
        player.shield = player.shield + 1;
        if player.shield > MAX_SHIELD {
            player.shield = MAX_SHIELD;
        }
        if player.shield == 0 {
            Some(ShieldSprite::Empty)
        } else if player.shield == 1 {
            Some(ShieldSprite::Low)
        } else if player.shield == 2 {
            Some(ShieldSprite::Full)
        } else {
            None
        }
    } else {
        None
    }
}

/// The shield after a regeneration: one point more, up to the capacity.
pub open spec fn regen_level(shield: u8) -> u8 {
    if shield + 1 > MAX_SHIELD {
        MAX_SHIELD
    } else {
        (shield + 1) as u8
    }
}

/// Law: regeneration never takes the shield past its capacity, never
/// lowers it, and a full shield stays full.
pub proof fn lemma_regen_bounded(shield: u8)
    requires
        shield <= MAX_SHIELD,
    ensures
        regen_level(shield) <= MAX_SHIELD,
        regen_level(shield) >= shield,
        shield < MAX_SHIELD ==> regen_level(shield) == shield + 1,
        regen_level(MAX_SHIELD) == MAX_SHIELD,
{
}

} // verus!
