//! The two-step confirmation behind a destructive button.

use vstd::prelude::*;

verus! {

/// How often a button that asks for confirmation has been pressed.
#[derive(Clone, Copy, Debug, PartialEq, Eq, Structural)]
pub enum Clicked {
    Never,
    Once,
    Twice,
}

impl Default for Clicked {
    fn default() -> (clicked: Self)
        ensures
            clicked == Clicked::Never,
    {
        Clicked::Never
    }
}

impl Clicked {
    /// The state that one more press leads to: a third press changes nothing.
    pub open spec fn pressed(self) -> Clicked {
        match self {
            Clicked::Never => Clicked::Once,
            Clicked::Once => Clicked::Twice,
            Clicked::Twice => Clicked::Twice,
        }
    }

    /// The state after `presses` presses in a row.
    pub open spec fn pressed_times(self, presses: nat) -> Clicked
        decreases presses,
    {
        if presses == 0 {
            self
        } else {
            self.pressed().pressed_times((presses - 1) as nat)
        }
    }

    /// Whether the action was confirmed, that is, the button was pressed twice.
    pub fn confirm_clicked(&self) -> (confirmed: bool)
        ensures
            confirmed == (*self == Clicked::Twice),
    {
        matches!(self, Clicked::Twice)
    }

    /// Records one press of the button.
    pub fn click_it(&mut self)
        ensures
            *final(self) == old(self).pressed(),
    {
        *self = match self {
            Clicked::Never => Clicked::Once,
            Clicked::Once => Clicked::Twice,
            Clicked::Twice => Clicked::Twice,
        };
    }
}

/// Two presses confirm, whatever the state before, and further presses keep
/// the confirmation.
pub proof fn lemma_two_presses_confirm(start: Clicked, presses: nat)
    requires
        presses >= 2,
    ensures
        start.pressed_times(presses) == Clicked::Twice,
    decreases presses,
{
    reveal_with_fuel(Clicked::pressed_times, 3);
    if presses > 2 {
        lemma_two_presses_confirm(start.pressed(), (presses - 1) as nat);
    }
}

} // verus!
