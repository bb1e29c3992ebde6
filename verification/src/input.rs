use vstd::prelude::*;

verus! {

/// One tick's worth of input: for each logical key, whether it is held right
/// now. The shell that polls the real keyboard fills this in; the core never
/// sees raw key events.
#[derive(Clone, Copy, Debug, PartialEq, Eq, Structural)]
pub struct InputSnapshot {
    /// Player one's "move up" key is held.
    pub player1_up: bool,
    /// Player one's "move down" key is held.
    pub player1_down: bool,
    /// Player two's "move up" key is held.
    pub player2_up: bool,
    /// Player two's "move down" key is held.
    pub player2_down: bool,
    /// The start/confirm key is held.
    pub start: bool,
}

impl InputSnapshot {
    /// A snapshot with no key held.
    pub fn idle() -> (snapshot: InputSnapshot)
        ensures
            !snapshot.player1_up,
            !snapshot.player1_down,
            !snapshot.player2_up,
            !snapshot.player2_down,
            !snapshot.start,
    {
        InputSnapshot {
            player1_up: false,
            player1_down: false,
            player2_up: false,
            player2_down: false,
            start: false,
        }
    }
}

} // verus!
