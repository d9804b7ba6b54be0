use vstd::prelude::*;

verus! {

/// The things a player can ask of the game.
#[derive(PartialEq, Eq, Structural, Clone, Copy, Debug, Hash)]
pub enum Action {
    Up,
    Down,
    Left,
    Right,
    Select,
    Shoot,
    Pause,
}

/// The keyboard keys the game listens to.
#[derive(PartialEq, Eq, Structural, Clone, Copy, Debug, Hash)]
pub enum Key {
    W,
    A,
    S,
    D,
    ArrowUp,
    ArrowDown,
    ArrowLeft,
    ArrowRight,
    Space,
    Enter,
    Escape,
}

/// The gamepad buttons the game listens to.
#[derive(PartialEq, Eq, Structural, Clone, Copy, Debug, Hash)]
pub enum PadButton {
    DPadUp,
    DPadDown,
    DPadLeft,
    DPadRight,
    /// The bottom button of the face cluster.
    South,
    Start,
    Select,
}

/// The directions of the left analog stick (pushed past a quarter of its
/// travel).
#[derive(PartialEq, Eq, Structural, Clone, Copy, Debug, Hash)]
pub enum StickDirection {
    Up,
    Down,
    Left,
    Right,
}

/// A physical input.
#[derive(PartialEq, Eq, Structural, Clone, Copy, Debug, Hash)]
pub enum InputSource {
    Key(Key),
    Button(PadButton),
    LeftStick(StickDirection),
}

/// The game's controls, in the order they are registered: moving with
/// the left stick, WASD, the arrow keys or the D-pad; selecting with space,
/// enter or the bottom face button; shooting with space or the bottom face
/// button; pausing with escape or the gamepad's start or select button.
pub open spec fn bindings_spec() -> Seq<(Action, InputSource)> {
    seq![
        (Action::Up, InputSource::LeftStick(StickDirection::Up)),
        (Action::Down, InputSource::LeftStick(StickDirection::Down)),
        (Action::Left, InputSource::LeftStick(StickDirection::Left)),
        (Action::Right, InputSource::LeftStick(StickDirection::Right)),
        (Action::Up, InputSource::Key(Key::W)),
        (Action::Up, InputSource::Key(Key::ArrowUp)),
        (Action::Up, InputSource::Button(PadButton::DPadUp)),
        (Action::Down, InputSource::Key(Key::S)),
        (Action::Down, InputSource::Key(Key::ArrowDown)),
        (Action::Down, InputSource::Button(PadButton::DPadDown)),
        (Action::Left, InputSource::Key(Key::A)),
        (Action::Left, InputSource::Key(Key::ArrowLeft)),
        (Action::Left, InputSource::Button(PadButton::DPadLeft)),
        (Action::Right, InputSource::Key(Key::D)),
        (Action::Right, InputSource::Key(Key::ArrowRight)),
        (Action::Right, InputSource::Button(PadButton::DPadRight)),
        (Action::Select, InputSource::Key(Key::Space)),
        (Action::Shoot, InputSource::Key(Key::Space)),
        (Action::Shoot, InputSource::Button(PadButton::South)),
        (Action::Select, InputSource::Key(Key::Enter)),
        (Action::Select, InputSource::Button(PadButton::South)),
        (Action::Pause, InputSource::Key(Key::Escape)),
        (Action::Pause, InputSource::Button(PadButton::Start)),
        (Action::Pause, InputSource::Button(PadButton::Select)),
    ]
}

/// The game's controls, as pairs of an action and an input that triggers
/// it.
pub fn default_bindings() -> (b: Vec<(Action, InputSource)>)
    ensures
        b@ == bindings_spec(),
{
    let mut b = Vec::new();
    b.push((Action::Up, InputSource::LeftStick(StickDirection::Up)));
    b.push((Action::Down, InputSource::LeftStick(StickDirection::Down)));
    b.push((Action::Left, InputSource::LeftStick(StickDirection::Left)));
    b.push((Action::Right, InputSource::LeftStick(StickDirection::Right)));
    b.push((Action::Up, InputSource::Key(Key::W)));
    b.push((Action::Up, InputSource::Key(Key::ArrowUp)));
    b.push((Action::Up, InputSource::Button(PadButton::DPadUp)));
    b.push((Action::Down, InputSource::Key(Key::S)));
    b.push((Action::Down, InputSource::Key(Key::ArrowDown)));
    b.push((Action::Down, InputSource::Button(PadButton::DPadDown)));
    b.push((Action::Left, InputSource::Key(Key::A)));
    b.push((Action::Left, InputSource::Key(Key::ArrowLeft)));
    b.push((Action::Left, InputSource::Button(PadButton::DPadLeft)));
    b.push((Action::Right, InputSource::Key(Key::D)));
    b.push((Action::Right, InputSource::Key(Key::ArrowRight)));
    b.push((Action::Right, InputSource::Button(PadButton::DPadRight)));
    b.push((Action::Select, InputSource::Key(Key::Space)));
    b.push((Action::Shoot, InputSource::Key(Key::Space)));
    b.push((Action::Shoot, InputSource::Button(PadButton::South)));
    b.push((Action::Select, InputSource::Key(Key::Enter)));
    b.push((Action::Select, InputSource::Button(PadButton::South)));
    b.push((Action::Pause, InputSource::Key(Key::Escape)));
    b.push((Action::Pause, InputSource::Button(PadButton::Start)));
    b.push((Action::Pause, InputSource::Button(PadButton::Select)));
    b
}

/// Whether `source` triggers `action` under the game's controls.
pub fn triggers(source: InputSource, action: Action) -> (r: bool)
    ensures
        r == exists|i: int|
            0 <= i < bindings_spec().len() && #[trigger] bindings_spec()[i] == (action, source),
{
    let b = default_bindings();
    let mut i: usize = 0;
    while i < b.len()
        invariant
            b@ == bindings_spec(),
            i <= b@.len(),
            forall|j: int| 0 <= j < i ==> b@[j] != (action, source),
        decreases b@.len() - i,
    {
        let (a, s) = b[i];
        if a == action && s == source {
            assert(bindings_spec()[i as int] == (action, source));
            return true;
        }
        i = i + 1;
    }
    false
}

/// Law: every action can be triggered from the keyboard and from a
/// gamepad.
pub proof fn lemma_every_action_reachable(action: Action)
    ensures
        exists|i: int|
            0 <= i < bindings_spec().len() && #[trigger] bindings_spec()[i].0 == action
                && bindings_spec()[i].1 is Key,
        exists|i: int|
            0 <= i < bindings_spec().len() && #[trigger] bindings_spec()[i].0 == action
                && !(bindings_spec()[i].1 is Key),
{
    let s = bindings_spec();
    match action {
        Action::Up => {
            assert(s[4].0 == action);
            assert(s[0].0 == action);
        },
        Action::Down => {
            assert(s[7].0 == action);
            assert(s[1].0 == action);
        },
        Action::Left => {
            assert(s[10].0 == action);
            assert(s[2].0 == action);
        },
        Action::Right => {
            assert(s[13].0 == action);
            assert(s[3].0 == action);
        },
        Action::Select => {
            assert(s[16].0 == action);
            assert(s[20].0 == action);
        },
        Action::Shoot => {
            assert(s[17].0 == action);
            assert(s[18].0 == action);
        },
        Action::Pause => {
            assert(s[21].0 == action);
            assert(s[22].0 == action);
        },
    }
}

/// The direction an input points in, for the inputs that point: W, the up
/// arrow, the D-pad's up and the stick pushed up point up, and likewise for
/// down, left and right.
pub open spec fn direction_of(source: InputSource) -> Option<Action> {
    match source {
        InputSource::Key(Key::W) | InputSource::Key(Key::ArrowUp) | InputSource::Button(
            PadButton::DPadUp,
        ) | InputSource::LeftStick(StickDirection::Up) => Some(Action::Up),
        InputSource::Key(Key::S) | InputSource::Key(Key::ArrowDown) | InputSource::Button(
            PadButton::DPadDown,
        ) | InputSource::LeftStick(StickDirection::Down) => Some(Action::Down),
        InputSource::Key(Key::A) | InputSource::Key(Key::ArrowLeft) | InputSource::Button(
            PadButton::DPadLeft,
        ) | InputSource::LeftStick(StickDirection::Left) => Some(Action::Left),
        InputSource::Key(Key::D) | InputSource::Key(Key::ArrowRight) | InputSource::Button(
            PadButton::DPadRight,
        ) | InputSource::LeftStick(StickDirection::Right) => Some(Action::Right),
        _ => None,
    }
}

/// Whether an action is a movement.
pub open spec fn is_direction(a: Action) -> bool {
    a == Action::Up || a == Action::Down || a == Action::Left || a == Action::Right
}

/// Law: a directional input moves in its own direction and in no other,
/// every directional input is bound, and movement comes from directional
/// inputs only.
pub proof fn lemma_directions_bound_to_themselves()
    ensures
        forall|i: int|
            0 <= i < bindings_spec().len() && direction_of(#[trigger] bindings_spec()[i].1) is Some
                ==> Some(bindings_spec()[i].0) == direction_of(bindings_spec()[i].1),
        forall|i: int|
            0 <= i < bindings_spec().len() && is_direction(#[trigger] bindings_spec()[i].0)
                ==> direction_of(bindings_spec()[i].1) == Some(bindings_spec()[i].0),
        forall|source: InputSource|
            #![trigger direction_of(source)]
            direction_of(source) is Some ==> exists|i: int|
                0 <= i < bindings_spec().len() && #[trigger] bindings_spec()[i] == (
                    direction_of(source).unwrap(),
                    source,
                ),
{
    let s = bindings_spec();
    assert forall|i: int|
        0 <= i < s.len() && direction_of(#[trigger] s[i].1) is Some implies Some(s[i].0)
            == direction_of(s[i].1) by {
        assert(0 <= i < 24);
    }
    assert forall|i: int| 0 <= i < s.len() && is_direction(#[trigger] s[i].0) implies direction_of(
        s[i].1,
    ) == Some(s[i].0) by {
        assert(0 <= i < 24);
    }
    assert forall|source: InputSource|
        #![trigger direction_of(source)]
        direction_of(source) is Some implies exists|i: int|
            0 <= i < s.len() && #[trigger] s[i] == (direction_of(source).unwrap(), source) by {
        match source {
            InputSource::LeftStick(StickDirection::Up) => assert(s[0] == (Action::Up, source)),
            InputSource::LeftStick(StickDirection::Down) => assert(s[1] == (Action::Down, source)),
            InputSource::LeftStick(StickDirection::Left) => assert(s[2] == (Action::Left, source)),
            InputSource::LeftStick(StickDirection::Right) => assert(s[3] == (Action::Right, source)),
            InputSource::Key(Key::W) => assert(s[4] == (Action::Up, source)),
            InputSource::Key(Key::ArrowUp) => assert(s[5] == (Action::Up, source)),
            InputSource::Button(PadButton::DPadUp) => assert(s[6] == (Action::Up, source)),
            InputSource::Key(Key::S) => assert(s[7] == (Action::Down, source)),
            InputSource::Key(Key::ArrowDown) => assert(s[8] == (Action::Down, source)),
            InputSource::Button(PadButton::DPadDown) => assert(s[9] == (Action::Down, source)),
            InputSource::Key(Key::A) => assert(s[10] == (Action::Left, source)),
            InputSource::Key(Key::ArrowLeft) => assert(s[11] == (Action::Left, source)),
            InputSource::Button(PadButton::DPadLeft) => assert(s[12] == (Action::Left, source)),
            InputSource::Key(Key::D) => assert(s[13] == (Action::Right, source)),
            InputSource::Key(Key::ArrowRight) => assert(s[14] == (Action::Right, source)),
            InputSource::Button(PadButton::DPadRight) => assert(s[15] == (Action::Right, source)),
            _ => {},
        }
    }
}

} // verus!
