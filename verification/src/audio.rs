use vstd::prelude::*;

verus! {

/// The short sound effects of the game.
#[derive(PartialEq, Eq, Structural, Clone, Copy, Debug, Hash)]
pub enum SoundEffect {
    Shoot,
    Explosion,
}

/// A request to play a sound effect once.
#[derive(PartialEq, Eq, Structural, Clone, Copy, Debug)]
pub struct PlaySfxEvent {
    pub sfx: SoundEffect,
}

/// The looping music tracks of the game.
#[derive(PartialEq, Eq, Structural, Clone, Copy, Debug, Hash)]
pub enum Soundtrack {
    /// The theme of the splash and title screens.
    MainTheme,
    /// The theme of the game screen.
    BattleTheme,
    /// The theme played once the journey's time is up.
    End,
}

/// A request to switch the music to a track.
#[derive(PartialEq, Eq, Structural, Clone, Copy, Debug)]
pub struct PlaySoundtrackEvent {
    pub soundtrack: Soundtrack,
}

/// What the music player has to do for a soundtrack request.
#[derive(PartialEq, Eq, Structural, Clone, Copy, Debug)]
pub enum SoundtrackAction {
    /// No music player exists yet: create one, silent, that loops the track
    /// and fades in.
    Spawn(Soundtrack),
    /// The player plays another track: switch to this one, silence it and
    /// fade it in.
    Switch(Soundtrack),
    /// The player already plays the requested track: leave it alone.
    Keep,
}

/// The action for a request to play `requested` while the music player
/// plays `current` (none if there is no player).
pub open spec fn action_for(current: Option<Soundtrack>, requested: Soundtrack) -> SoundtrackAction {
    match current {
        None => SoundtrackAction::Spawn(requested),
        Some(t) => if t == requested {
            SoundtrackAction::Keep
        } else {
            SoundtrackAction::Switch(requested)
        },
    }
}

/// The action for a request to play `event.soundtrack`, given the track of
/// the single music player if there is one.
pub fn soundtrack_action(current: Option<Soundtrack>, event: PlaySoundtrackEvent) -> (a:
    SoundtrackAction)
    ensures
        a == action_for(current, event.soundtrack),
{
    match current {
        None => SoundtrackAction::Spawn(event.soundtrack),
        Some(t) => if t == event.soundtrack {
            SoundtrackAction::Keep
        } else {
            SoundtrackAction::Switch(event.soundtrack)
        },
    }
}

/// The track that a music player plays after it has handled an action.
pub open spec fn track_after(current: Option<Soundtrack>, a: SoundtrackAction) -> Option<Soundtrack> {
    match a {
        SoundtrackAction::Spawn(t) => Some(t),
        SoundtrackAction::Switch(t) => Some(t),
        SoundtrackAction::Keep => current,
    }
}

/// Law: whatever the player played before, after a request it plays the
/// requested track.
pub proof fn lemma_request_is_played(current: Option<Soundtrack>, requested: Soundtrack)
    ensures
        track_after(current, action_for(current, requested)) == Some(requested),
{
}

/// Law: asking for the track that is already playing changes nothing.
pub proof fn lemma_repeat_request_keeps(track: Soundtrack)
    ensures
        action_for(Some(track), track) == SoundtrackAction::Keep,
{
}

} // verus!
