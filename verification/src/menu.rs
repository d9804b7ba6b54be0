use vstd::prelude::*;

verus! {

/// The item above `active` in a menu whose last item is `max`: the top item
/// wraps round to the last.
pub open spec fn step_up(active: nat, max: nat) -> nat {
    if active == 0 {
        max
    } else {
        (active - 1) as nat
    }
}

/// The item below `active` in a menu whose last item is `max`: the last
/// item wraps round to the top.
pub open spec fn step_down(active: nat, max: nat) -> nat {
    if active == max {
        0
    } else {
        active + 1
    }
}

/// The item selected after one frame in which up and/or down were pressed:
/// up is applied first, then down.
pub open spec fn navigated(active: nat, max: nat, up: bool, down: bool) -> nat {
    let a = if up {
        step_up(active, max)
    } else {
        active
    };
    if down {
        step_down(a, max)
    } else {
        a
    }
}

/// The keyboard / gamepad cursor of a menu: the selected item and the index
/// of the last item.
#[derive(Clone, Copy, Debug, PartialEq, Eq, Structural)]
pub struct MenuCursor {
    pub active: usize,
    pub max_index: usize,
}

impl MenuCursor {
    /// The selected item is one of the menu's items.
    pub open spec fn wf(&self) -> bool {
        self.active <= self.max_index
    }

    /// A cursor on the first item of a menu whose last item is `max_index`.
    pub fn new(max_index: usize) -> (c: Self)
        ensures
            c.active == 0,
            c.max_index == max_index,
            c.wf(),
    {
        MenuCursor { active: 0, max_index }
    }

    /// Moves the cursor for one frame of input.
    pub fn navigate(&mut self, up: bool, down: bool)
        requires
            old(self).wf(),
        ensures
            final(self).max_index == old(self).max_index,
            final(self).active == navigated(
                old(self).active as nat,
                old(self).max_index as nat,
                up,
                down,
            ),
            final(self).wf(),
    {
        if up {
            if self.active == 0 {
                self.active = self.max_index;
            } else {
                self.active = self.active - 1;
            }
        }
        if down {
            if self.active == self.max_index {
                self.active = 0;
            } else {
                self.active = self.active + 1;
            }
        }
    }

    /// Selects the item under the mouse pointer.
    pub fn hover(&mut self, index: usize)
        requires
            index <= old(self).max_index,
        ensures
            final(self).active == index,
            final(self).max_index == old(self).max_index,
            final(self).wf(),
    {
        self.active = index;
    }

    /// Puts the cursor back on the first item.
    pub fn reset(&mut self)
        ensures
            final(self).active == 0,
            final(self).max_index == old(self).max_index,
            final(self).wf(),
    {
        self.active = 0;
    }
}

/// Law: moving up and then down returns to the item where the cursor was.
pub proof fn lemma_up_then_down(active: nat, max: nat)
    requires
        active <= max,
    ensures
        step_down(step_up(active, max), max) == active,
{
}

/// Law: moving down and then up returns to the item where the cursor was.
pub proof fn lemma_down_then_up(active: nat, max: nat)
    requires
        active <= max,
    ensures
        step_up(step_down(active, max), max) == active,
{
}

/// Law: pressing up and down in the same frame leaves the cursor where it
/// was.
pub proof fn lemma_up_and_down_cancel(active: nat, max: nat)
    requires
        active <= max,
    ensures
        navigated(active, max, true, true) == active,
{
}

/// The cursor after `n` presses of down.
pub open spec fn down_times(active: nat, max: nat, n: nat) -> nat
    decreases n,
{
    if n == 0 {
        active
    } else {
        step_down(down_times(active, max, (n - 1) as nat), max)
    }
}

/// Pressing down `n` times moves the cursor `n` places round the menu.
proof fn lemma_down_times_mod(active: nat, max: nat, n: nat)
    requires
        active <= max,
    ensures
        down_times(active, max, n) == (active + n) % (max + 1),
    decreases n,
{
    if n == 0 {
        vstd::arithmetic::div_mod::lemma_small_mod(active, max + 1);
    } else {
        lemma_down_times_mod(active, max, (n - 1) as nat);
        let prev = down_times(active, max, (n - 1) as nat);
        vstd::arithmetic::div_mod::lemma_mod_add_multiples_vanish((active + n) as int, (max + 1) as int);
        vstd::arithmetic::div_mod::lemma_add_mod_noop((active + n - 1) as int, 1, (max + 1) as int);
        vstd::arithmetic::div_mod::lemma_mod_bound((active + n - 1) as int, (max + 1) as int);
        if prev == max {
            vstd::arithmetic::div_mod::lemma_mod_self_0((max + 1) as int);
            if max > 0 {
                vstd::arithmetic::div_mod::lemma_small_mod(1, (max + 1) as nat);
            } else {
                vstd::arithmetic::div_mod::lemma_mod_self_0(1);
            }
        } else {
            vstd::arithmetic::div_mod::lemma_small_mod((prev + 1) as nat, (max + 1) as nat);
            vstd::arithmetic::div_mod::lemma_small_mod(1, (max + 1) as nat);
        }
    }
}

/// Law: pressing down once per item brings the cursor back round to the
/// item where it started.
pub proof fn lemma_down_full_cycle(active: nat, max: nat)
    requires
        active <= max,
    ensures
        down_times(active, max, max + 1) == active,
{
    lemma_down_times_mod(active, max, max + 1);
    vstd::arithmetic::div_mod::lemma_mod_add_multiples_vanish(active as int, (max + 1) as int);
    vstd::arithmetic::div_mod::lemma_small_mod(active, max + 1);
}

/// How a menu label is drawn.
#[derive(PartialEq, Eq, Structural, Clone, Copy, Debug, Hash)]
pub enum TextStyle {
    /// Drawn in white: the item under the cursor.
    Highlighted,
    /// Drawn in medium gray.
    Dimmed,
}

/// The style of the label of item `button_index` when `active` is selected.
pub fn text_style(button_index: usize, active: usize) -> (s: TextStyle)
    ensures
        s == (if button_index == active {
            TextStyle::Highlighted
        } else {
            TextStyle::Dimmed
        }),
{
    if button_index == active {
        TextStyle::Highlighted
    } else {
        TextStyle::Dimmed
    }
}

/// What the mouse is doing with a button this frame.
#[derive(PartialEq, Eq, Structural, Clone, Copy, Debug, Hash)]
pub enum Interaction {
    Pressed,
    Hovered,
    Idle,
}

} // verus!
