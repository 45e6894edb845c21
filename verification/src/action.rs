//! The actions of a player.

use vstd::prelude::*;
use crate::axis::Axis;
use crate::direction::Direction;
use crate::polarity::Polarity;

verus! {

/// What a player can ask of the falling piece.
#[derive(Clone, Copy, Debug, PartialEq, Eq, Hash, Structural)]
pub enum Action {
    MoveForward,
    MoveBackward,
    MoveLeft,
    MoveRight,
    SoftDrop,
    HardDrop,
    Rotate { direction: Direction },
}

/// All actions: the four moves, the two drops, and a quarter turn about
/// each direction, axis by axis with the positive direction first.
pub open spec fn all_actions() -> Seq<Action> {
    seq![
        Action::MoveForward,
        Action::MoveBackward,
        Action::MoveLeft,
        Action::MoveRight,
        Action::SoftDrop,
        Action::HardDrop,
        Action::Rotate { direction: Direction { polarity: Polarity::Positive, axis: Axis::X } },
        Action::Rotate { direction: Direction { polarity: Polarity::Negative, axis: Axis::X } },
        Action::Rotate { direction: Direction { polarity: Polarity::Positive, axis: Axis::Y } },
        Action::Rotate { direction: Direction { polarity: Polarity::Negative, axis: Axis::Y } },
        Action::Rotate { direction: Direction { polarity: Polarity::Positive, axis: Axis::Z } },
        Action::Rotate { direction: Direction { polarity: Polarity::Negative, axis: Axis::Z } },
    ]
}

impl Action {
    /// Whether the action moves the piece sideways.
    pub fn is_movement(&self) -> (movement: bool)
        ensures
            movement == (*self == Action::MoveForward || *self == Action::MoveBackward || *self
                == Action::MoveLeft || *self == Action::MoveRight),
    {
        matches!(self, Self::MoveForward | Self::MoveBackward | Self::MoveLeft | Self::MoveRight)
    }

    pub fn get_all_actions() -> (actions: Vec<Self>)
        ensures
            actions@ == all_actions(),
    {
        let mut actions = vec![
            Self::MoveForward,
            Self::MoveBackward,
            Self::MoveLeft,
            Self::MoveRight,
            Self::SoftDrop,
            Self::HardDrop,
        ];
        let mut axis: usize = 0;
        while axis < 3
            invariant
                axis <= 3,
                actions@ == all_actions().take(6 + 2 * axis),
            decreases 3 - axis,
        {
            let mut polarity: usize = 0;
            while polarity < 2
                invariant
                    axis < 3,
                    polarity <= 2,
                    actions@ == all_actions().take(6 + 2 * axis + polarity),
                decreases 2 - polarity,
            {
                let direction = Direction::from(
                    (Polarity::from_index(polarity), Axis::from_index(axis)),
                );
                actions.push(Self::Rotate { direction });
                proof {
                    let upto = 6 + 2 * axis + polarity;
                    assert(all_actions().take(upto + 1) =~= all_actions().take(upto).push(
                        Action::Rotate { direction },
                    ));
                }
                polarity += 1;
            }
            axis += 1;
        }
        assert(all_actions().take(12) =~= all_actions());
        actions
    }
}

} // verus!
