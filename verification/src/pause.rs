use vstd::prelude::*;
use crate::menu::{Interaction, MenuCursor, navigated};

verus! {

/// The buttons of the pause menu, top to bottom.
#[derive(PartialEq, Eq, Structural, Clone, Copy, Debug, Hash)]
pub enum PauseButton {
    Resume,
    Menu,
}

/// What the pause menu asks the game to do.
#[derive(PartialEq, Eq, Structural, Clone, Copy, Debug, Hash)]
pub enum PauseCommand {
    Resume,
    BackToMenu,
}

/// The index of the last pause menu item.
pub const PAUSE_MAX_INDEX: usize = 1;

impl PauseButton {
    pub open spec fn index_spec(self) -> nat {
        match self {
            PauseButton::Resume => 0,
            PauseButton::Menu => 1,
        }
    }

    pub open spec fn command_spec(self) -> PauseCommand {
        match self {
            PauseButton::Resume => PauseCommand::Resume,
            PauseButton::Menu => PauseCommand::BackToMenu,
        }
    }

    /// The text on the button.
    pub open spec fn label_spec(self) -> Seq<char> {
        match self {
            PauseButton::Resume => "RESUME"@,
            PauseButton::Menu => "BACK TO MENU"@,
        }
    }

    /// The position of the button in the menu.
    pub fn index(&self) -> (i: usize)
        ensures
            i == self.index_spec(),
    {
        match self {
            PauseButton::Resume => 0,
            PauseButton::Menu => 1,
        }
    }

    /// The button's label.
    pub fn label(&self) -> (s: &'static str)
        ensures
            s@ == self.label_spec(),
    {
        match self {
            PauseButton::Resume => "RESUME",
            PauseButton::Menu => "BACK TO MENU",
        }
    }
}

/// The command of the pause menu item at `index`, if there is one there.
pub open spec fn pause_command_at(index: nat) -> Option<PauseCommand> {
    if index == 0 {
        Some(PauseCommand::Resume)
    } else if index == 1 {
        Some(PauseCommand::BackToMenu)
    } else {
        None
    }
}

/// One frame of keyboard / gamepad input on the pause menu: the cursor
/// moves, then select runs the item under the cursor.
pub fn pause_menu_input(cursor: &mut MenuCursor, up: bool, down: bool, select: bool) -> (cmd:
    Option<PauseCommand>)
    requires
        old(cursor).wf(),
    ensures
        final(cursor).wf(),
        final(cursor).max_index == old(cursor).max_index,
        final(cursor).active == navigated(
            old(cursor).active as nat,
            old(cursor).max_index as nat,
            up,
            down,
        ),
        cmd == (if select {
            pause_command_at(final(cursor).active as nat)
        } else {
            None
        }),
{
    cursor.navigate(up, down);
    if select {
        if cursor.active == 0 {
            Some(PauseCommand::Resume)
        } else if cursor.active == 1 {
            Some(PauseCommand::BackToMenu)
        } else {
            None
        }
    } else {
        None
    }
}

/// A mouse interaction with a pause button: a press runs its command, a
/// hover selects it.
pub fn pause_menu_button(cursor: &mut MenuCursor, interaction: Interaction, button: PauseButton) -> (cmd:
    Option<PauseCommand>)
    requires
        old(cursor).wf(),
        interaction == Interaction::Hovered ==> button.index_spec() <= old(cursor).max_index,
    ensures
        final(cursor).wf(),
        final(cursor).max_index == old(cursor).max_index,
        cmd == (if interaction == Interaction::Pressed {
            Some(button.command_spec())
        } else {
            None
        }),
        final(cursor).active == (if interaction == Interaction::Hovered {
            button.index_spec()
        } else {
            old(cursor).active as nat
        }),
{
    match interaction {
        Interaction::Pressed => match button {
            PauseButton::Resume => Some(PauseCommand::Resume),
            PauseButton::Menu => Some(PauseCommand::BackToMenu),
        },
        Interaction::Hovered => {
            cursor.hover(button.index());
            None
        },
        Interaction::Idle => None,
    }
}

/// Law: clicking a pause button does what selecting its item with the
/// keyboard does, and the button says what it does: "RESUME" resumes,
/// "BACK TO MENU" goes back to the title screen.
pub proof fn lemma_pause_button_matches_item(b: PauseButton)
    ensures
        pause_command_at(b.index_spec()) == Some(b.command_spec()),
        b.command_spec() == PauseCommand::Resume <==> b.label_spec() == "RESUME"@,
        b.command_spec() == PauseCommand::BackToMenu <==> b.label_spec() == "BACK TO MENU"@,
{
    reveal_strlit("RESUME");
    reveal_strlit("BACK TO MENU");
    assert("RESUME"@ != "BACK TO MENU"@) by {
        assert("RESUME"@[0] != "BACK TO MENU"@[0]);
    }
}

} // verus!
