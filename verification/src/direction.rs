//! Headings, raw input commands, and the rules for turning: a heading may
//! change to anything except its exact opposite (no 180-degree reversals).

use vstd::prelude::*;

verus! {

/// A heading: the direction the snake is currently moving in.
#[derive(Debug, Clone, Copy, PartialEq, Eq, Structural)]
pub enum Direction {
    Left,
    Up,
    Right,
    Down,
}

/// A raw command delivered by the input source: a requested turn, or a
/// request to quit the game.
#[derive(Debug, Clone, Copy, PartialEq, Eq, Structural)]
pub enum Input {
    Left,
    Up,
    Right,
    Down,
    Exit,
}

/// The one non-directional input outcome: the player asked to quit.
#[derive(Debug, Clone, Copy, PartialEq, Eq, Structural)]
pub enum InputError {
    Exit,
}

/// The exact reverse of a heading.
pub open spec fn spec_opposite(d: Direction) -> Direction {
    match d {
        Direction::Left => Direction::Right,
        Direction::Up => Direction::Down,
        Direction::Right => Direction::Left,
        Direction::Down => Direction::Up,
    }
}

/// A proposed heading is a legal turn exactly when it is not the reverse
/// of the current one; in particular keeping the current heading is legal.
pub open spec fn spec_valid_direction(cur: Direction, new: Direction) -> bool {
    new != spec_opposite(cur)
}

/// What a raw input command means: a heading, or the quit signal.
pub open spec fn spec_try_from(value: Input) -> Result<Direction, InputError> {
    match value {
        Input::Up => Ok(Direction::Up),
        Input::Right => Ok(Direction::Right),
        Input::Down => Ok(Direction::Down),
        Input::Left => Ok(Direction::Left),
        Input::Exit => Err(InputError::Exit),
    }
}

impl Direction {
    /// Decides whether `new_direction` is a legal turn away from
    /// `cur_direction`: every heading is allowed except the exact opposite.
    pub fn valid_direction(cur_direction: &Direction, new_direction: &Direction) -> (r: bool)
        ensures
            r == spec_valid_direction(*cur_direction, *new_direction),
    {
        match new_direction {
            Direction::Up if matches!(cur_direction, Direction::Down) => false,
            Direction::Down if matches!(cur_direction, Direction::Up) => false,
            Direction::Right if matches!(cur_direction, Direction::Left) => false,
            Direction::Left if matches!(cur_direction, Direction::Right) => false,
            _ => true,
        }
    }

    /// Translates a raw input command into a heading, or reports the quit
    /// signal.
    pub fn try_from(value: Input) -> (r: Result<Direction, InputError>)
        ensures
            r == spec_try_from(value),
    {
        match value {
            Input::Up => Ok(Direction::Up),
            Input::Right => Ok(Direction::Right),
            Input::Down => Ok(Direction::Down),
            Input::Left => Ok(Direction::Left),
            Input::Exit => Err(InputError::Exit),
        }
    }
}

/// Translates the raw commands drained from the input channel since the last
/// tick into the queued turns, in arrival order; a quit command anywhere in
/// the batch aborts the tick instead.
pub fn collect_turns(inputs: &Vec<Input>) -> (r: Result<Vec<Direction>, InputError>)
    ensures
        match r {
            Ok(dirs) => {
                &&& dirs@.len() == inputs@.len()
                &&& forall|i: int| 0 <= i < inputs@.len() ==> spec_try_from(#[trigger] inputs@[i])
                    == Ok::<Direction, InputError>(dirs@[i])
            },
            Err(e) => {
                &&& e == InputError::Exit
                &&& exists|i: int| 0 <= i < inputs@.len() && inputs@[i] == Input::Exit
            },
        },
{
    let mut dirs: Vec<Direction> = Vec::new();
    let n = inputs.len();
    for i in 0..n
        invariant
            n == inputs@.len(),
            dirs@.len() == i,
            forall|j: int| 0 <= j < i ==> spec_try_from(#[trigger] inputs@[j])
                == Ok::<Direction, InputError>(dirs@[j]),
    {
        match Direction::try_from(inputs[i]) {
            Ok(d) => {
                dirs.push(d);
            },
            Err(e) => {
                return Err(e);
            },
        }
    }
    Ok(dirs)
}

/// Law: no heading may reverse onto its opposite, and keeping the current
/// heading is always a valid turn.
pub proof fn lemma_valid_turn(h: Direction)
    ensures
        !spec_valid_direction(h, spec_opposite(h)),
        spec_valid_direction(h, h),
{
    match h {
        Direction::Left => {},
        Direction::Up => {},
        Direction::Right => {},
        Direction::Down => {},
    }
}

} // verus!
