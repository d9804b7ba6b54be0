use vstd::prelude::*;
use crate::menu::{Interaction, MenuCursor, navigated};

verus! {

/// The buttons of the game over menu, top to bottom.
#[derive(PartialEq, Eq, Structural, Clone, Copy, Debug, Hash)]
pub enum GameOverButton {
    Replay,
    BackToMenu,
}

/// What the game over menu asks the game to do.
#[derive(PartialEq, Eq, Structural, Clone, Copy, Debug, Hash)]
pub enum GameOverCommand {
    /// Restart the game session.
    Replay,
    /// Restart the session and go back to the title screen.
    BackToMenu,
}

/// The index of the last game over menu item.
pub const GAME_OVER_MAX_INDEX: usize = 1;

impl GameOverButton {
    pub open spec fn index_spec(self) -> nat {
        match self {
            GameOverButton::Replay => 0,
            GameOverButton::BackToMenu => 1,
        }
    }

    pub open spec fn command_spec(self) -> GameOverCommand {
        match self {
            GameOverButton::Replay => GameOverCommand::Replay,
            GameOverButton::BackToMenu => GameOverCommand::BackToMenu,
        }
    }

    /// The text on the button.
    pub open spec fn label_spec(self) -> Seq<char> {
        match self {
            GameOverButton::Replay => "REPLAY"@,
            GameOverButton::BackToMenu => "BACK TO MENU"@,
        }
    }

    /// The position of the button in the menu.
    pub fn index(&self) -> (i: usize)
        ensures
            i == self.index_spec(),
    {
        match self {
            GameOverButton::Replay => 0,
            GameOverButton::BackToMenu => 1,
        }
    }

    /// The button's label.
    pub fn label(&self) -> (s: &'static str)
        ensures
            s@ == self.label_spec(),
    {
        match self {
            GameOverButton::Replay => "REPLAY",
            GameOverButton::BackToMenu => "BACK TO MENU",
        }
    }
}

/// The command of the game over menu item at `index`, if there is one there.
pub open spec fn game_over_command_at(index: nat) -> Option<GameOverCommand> {
    if index == 0 {
        Some(GameOverCommand::Replay)
    } else if index == 1 {
        Some(GameOverCommand::BackToMenu)
    } else {
        None
    }
}

/// One frame of keyboard / gamepad input on the game over menu: the cursor
/// moves, then select runs the item under the cursor.
pub fn game_over_input(cursor: &mut MenuCursor, up: bool, down: bool, select: bool) -> (cmd:
    Option<GameOverCommand>)
    requires
        old(cursor).wf(),
    ensures
        final(cursor).wf(),
        final(cursor).max_index == old(cursor).max_index,
        final(cursor).active == navigated(
            old(cursor).active as nat,
            old(cursor).max_index as nat,
            up,
            down,
        ),
        cmd == (if select {
            game_over_command_at(final(cursor).active as nat)
        } else {
            None
        }),
{
    cursor.navigate(up, down);
    if select {
        if cursor.active == 0 {
            Some(GameOverCommand::Replay)
        } else if cursor.active == 1 {
            Some(GameOverCommand::BackToMenu)
        } else {
            None
        }
    } else {
        None
    }
}

/// A mouse interaction with a game over button: a press runs its command, a
/// hover selects it.
pub fn game_over_button(cursor: &mut MenuCursor, interaction: Interaction, button: GameOverButton) -> (cmd:
    Option<GameOverCommand>)
    requires
        old(cursor).wf(),
        interaction == Interaction::Hovered ==> button.index_spec() <= old(cursor).max_index,
    ensures
        final(cursor).wf(),
        final(cursor).max_index == old(cursor).max_index,
        cmd == (if interaction == Interaction::Pressed {
            Some(button.command_spec())
        } else {
            None
        }),
        final(cursor).active == (if interaction == Interaction::Hovered {
            button.index_spec()
        } else {
            old(cursor).active as nat
        }),
{
    match interaction {
        Interaction::Pressed => match button {
            GameOverButton::Replay => Some(GameOverCommand::Replay),
            GameOverButton::BackToMenu => Some(GameOverCommand::BackToMenu),
        },
        Interaction::Hovered => {
            cursor.hover(button.index());
            None
        },
        Interaction::Idle => None,
    }
}

/// Law: clicking a game over button does what selecting its item with the
/// keyboard does, and the button says what it does: "REPLAY" replays,
/// "BACK TO MENU" goes back to the title screen.
pub proof fn lemma_game_over_button_matches_item(b: GameOverButton)
    ensures
        game_over_command_at(b.index_spec()) == Some(b.command_spec()),
        b.command_spec() == GameOverCommand::Replay <==> b.label_spec() == "REPLAY"@,
        b.command_spec() == GameOverCommand::BackToMenu <==> b.label_spec() == "BACK TO MENU"@,
{
    reveal_strlit("REPLAY");
    reveal_strlit("BACK TO MENU");
    assert("REPLAY"@ != "BACK TO MENU"@) by {
        assert("REPLAY"@[0] != "BACK TO MENU"@[0]);
    }
}

} // verus!
