use vstd::prelude::*;
use crate::menu::{Interaction, MenuCursor, TextStyle, navigated};

verus! {

/// The buttons of the title menu, top to bottom.
#[derive(PartialEq, Eq, Structural, Clone, Copy, Debug, Hash)]
pub enum MenuButton {
    NewGame,
    Settings,
    Quit,
}

/// What the title menu asks the game to do.
#[derive(PartialEq, Eq, Structural, Clone, Copy, Debug, Hash)]
pub enum TitleCommand {
    /// Go to the game screen.
    StartGame,
    /// Settings are not implemented: the game only reports the press.
    OpenSettings,
    /// Leave the application.
    Quit,
}

impl MenuButton {
    pub open spec fn index_spec(self) -> nat {
        match self {
            MenuButton::NewGame => 0,
            MenuButton::Settings => 1,
            MenuButton::Quit => 2,
        }
    }

    pub open spec fn command_spec(self) -> TitleCommand {
        match self {
            MenuButton::NewGame => TitleCommand::StartGame,
            MenuButton::Settings => TitleCommand::OpenSettings,
            MenuButton::Quit => TitleCommand::Quit,
        }
    }

    /// The text on the button.
    pub open spec fn label_spec(self) -> Seq<char> {
        match self {
            MenuButton::NewGame => "NEW GAME"@,
            MenuButton::Settings => "SETTINGS"@,
            MenuButton::Quit => "QUIT"@,
        }
    }

    /// The position of the button in the menu.
    pub fn index(&self) -> (i: usize)
        ensures
            i == self.index_spec(),
    {
        match self {
            MenuButton::NewGame => 0,
            MenuButton::Settings => 1,
            MenuButton::Quit => 2,
        }
    }

    /// What pressing the button does.
    pub fn command(&self) -> (c: TitleCommand)
        ensures
            c == self.command_spec(),
    {
        match self {
            MenuButton::NewGame => TitleCommand::StartGame,
            MenuButton::Settings => TitleCommand::OpenSettings,
            MenuButton::Quit => TitleCommand::Quit,
        }
    }

    /// The button's label.
    pub fn label(&self) -> (s: &'static str)
        ensures
            s@ == self.label_spec(),
    {
        match self {
            MenuButton::NewGame => "NEW GAME",
            MenuButton::Settings => "SETTINGS",
            MenuButton::Quit => "QUIT",
        }
    }
}

/// The buttons that the title menu shows: there is no quit button where the
/// game runs in a browser.
pub fn title_buttons(with_quit: bool) -> (buttons: Vec<MenuButton>)
    ensures
        buttons@ == (if with_quit {
            seq![MenuButton::NewGame, MenuButton::Settings, MenuButton::Quit]
        } else {
            seq![MenuButton::NewGame, MenuButton::Settings]
        }),
{
    let mut buttons = Vec::new();
    buttons.push(MenuButton::NewGame);
    buttons.push(MenuButton::Settings);
    if with_quit {
        buttons.push(MenuButton::Quit);
    }
    buttons
}

/// The index of the last title menu item.
pub fn title_max_index(with_quit: bool) -> (m: usize)
    ensures
        m == (if with_quit {
            2usize
        } else {
            1usize
        }),
{
    if with_quit {
        2
    } else {
        1
    }
}

/// The command of the title menu item at `index`, if there is one there.
pub open spec fn title_command_at(index: nat) -> Option<TitleCommand> {
    if index == 0 {
        Some(TitleCommand::StartGame)
    } else if index == 1 {
        Some(TitleCommand::OpenSettings)
    } else if index == 2 {
        Some(TitleCommand::Quit)
    } else {
        None
    }
}

/// One frame of keyboard / gamepad input on the title menu: the cursor
/// moves, then select runs the item under the cursor.
pub fn title_input(cursor: &mut MenuCursor, up: bool, down: bool, select: bool) -> (cmd: Option<
    TitleCommand,
>)
    requires
        old(cursor).wf(),
    ensures
        final(cursor).wf(),
        final(cursor).max_index == old(cursor).max_index,
        final(cursor).active == navigated(
            old(cursor).active as nat,
            old(cursor).max_index as nat,
            up,
            down,
        ),
        cmd == (if select {
            title_command_at(final(cursor).active as nat)
        } else {
            None
        }),
{
    cursor.navigate(up, down);
    if select {
        if cursor.active == 0 {
            Some(TitleCommand::StartGame)
        } else if cursor.active == 1 {
            Some(TitleCommand::OpenSettings)
        } else if cursor.active == 2 {
            Some(TitleCommand::Quit)
        } else {
            None
        }
    } else {
        None
    }
}

/// What a mouse interaction with a title button leads to.
#[derive(PartialEq, Eq, Structural, Clone, Copy, Debug)]
pub struct TitleButtonOutcome {
    /// The command to run, for a press.
    pub command: Option<TitleCommand>,
    /// The new style of the button's label, for a hover or when the pointer
    /// leaves.
    pub text: Option<TextStyle>,
}

/// A mouse interaction with a title button: a press runs its command, a
/// hover selects it and lights its label, and otherwise its label is dimmed.
pub fn title_button(cursor: &mut MenuCursor, interaction: Interaction, button: MenuButton) -> (out:
    TitleButtonOutcome)
    requires
        old(cursor).wf(),
        interaction == Interaction::Hovered ==> button.index_spec() <= old(cursor).max_index,
    ensures
        final(cursor).wf(),
        final(cursor).max_index == old(cursor).max_index,
        match interaction {
            Interaction::Pressed => {
                &&& out.command == Some(button.command_spec())
                &&& out.text.is_none()
                &&& final(cursor).active == old(cursor).active
            },
            Interaction::Hovered => {
                &&& out.command.is_none()
                &&& out.text == Some(TextStyle::Highlighted)
                &&& final(cursor).active == button.index_spec()
            },
            Interaction::Idle => {
                &&& out.command.is_none()
                &&& out.text == Some(TextStyle::Dimmed)
                &&& final(cursor).active == old(cursor).active
            },
        },
{
    match interaction {
        Interaction::Pressed => TitleButtonOutcome { command: Some(button.command()), text: None },
        Interaction::Hovered => {
            cursor.hover(button.index());
            TitleButtonOutcome { command: None, text: Some(TextStyle::Highlighted) }
        },
        Interaction::Idle => TitleButtonOutcome { command: None, text: Some(TextStyle::Dimmed) },
    }
}

/// Law: clicking a title button does what selecting its item with the
/// keyboard does, and the button says what it does: the button labelled
/// "NEW GAME" starts a game, "SETTINGS" opens the settings, "QUIT" quits.
pub proof fn lemma_title_button_matches_item(b: MenuButton)
    ensures
        title_command_at(b.index_spec()) == Some(b.command_spec()),
        b.command_spec() == TitleCommand::StartGame <==> b.label_spec() == "NEW GAME"@,
        b.command_spec() == TitleCommand::OpenSettings <==> b.label_spec() == "SETTINGS"@,
        b.command_spec() == TitleCommand::Quit <==> b.label_spec() == "QUIT"@,
{
    reveal_strlit("NEW GAME");
    reveal_strlit("SETTINGS");
    reveal_strlit("QUIT");
    assert("NEW GAME"@ != "SETTINGS"@ && "NEW GAME"@ != "QUIT"@ && "SETTINGS"@ != "QUIT"@) by {
        assert("NEW GAME"@[0] != "SETTINGS"@[0]);
        assert("NEW GAME"@[0] != "QUIT"@[0]);
        assert("SETTINGS"@[0] != "QUIT"@[0]);
    }
}

} // verus!
