//! The front end's screen flow, as far as it is a rule of the game: which
//! screen is shown next depends only on whether a winner has been decided.

use vstd::prelude::*;

use crate::model::Role;

verus! {

/// The three screens an embedding front end cycles through: the welcome
/// text, the running game, and the end-of-game display.
#[derive(Clone, Copy, Debug, PartialEq, Eq, Structural)]
pub enum Screens {
    Welcome,
    Game,
    End,
}

/// The screen to show next: once a winner is decided the end screen takes
/// over, whatever was shown before; until then the current screen stays.
pub fn next_screen(screen: Screens, winner: &Option<Role>) -> (s: Screens)
    ensures
        s == if winner.is_some() {
            Screens::End
        } else {
            screen
        },
{
    match winner {
        Some(_) => Screens::End,
        None => screen,
    }
}

} // verus!
