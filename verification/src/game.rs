//! The board and collision engine: the snake body, the apple, the board
//! bounds, and the per-tick state transition.

use std::collections::VecDeque;

use vstd::prelude::*;

use crate::direction::Direction;
use crate::direction::spec_valid_direction;

verus! {

/// The action one tick performs: a single move in a (possibly new) heading,
/// or a move in one heading followed by adopting a second heading for the
/// ticks after it.
#[derive(Debug, Clone, Copy, PartialEq, Eq, Structural)]
pub enum Step {
    Turn(Direction),
    MoveAndTurn { step_direction: Direction, new_direction: Direction },
}

/// What a bounds-checked target cell turns out to hold. A cell occupied by
/// the snake body is never a success state: self-collision is reported as a
/// `GameOverState` instead, so this type cannot represent it.
#[derive(Debug, Clone, Copy, PartialEq, Eq, Structural)]
pub enum BoardState {
    Empty,
    Apple,
}

/// The two terminal conditions that end a run.
#[derive(Debug, Clone, Copy, PartialEq, Eq, Structural)]
pub enum GameOverState {
    SnakeBite,
    OutOfBounds,
}

/// The whole game state: board bounds, the snake body (front = tail,
/// back = head), the apple, the current heading, and the previous-tick
/// snapshots kept for incremental rendering.
#[derive(Debug)]
pub struct Game {
    pub apple_pos: (usize, usize),
    pub apple_old: (usize, usize),
    pub board_size: (usize, usize),
    pub snake: VecDeque<(usize, usize)>,
    pub snake_old: VecDeque<(usize, usize)>,
    pub direction: Direction,
}

/// A cell lies on a board of the given size.
pub open spec fn in_bounds(cell: (usize, usize), size: (usize, usize)) -> bool {
    cell.0 < size.0 && cell.1 < size.1
}

impl Game {
    /// The game state is well formed: a non-degenerate board, a non-empty
    /// snake whose cells all lie on the board, and an apple on the board.
    pub open spec fn wf(self) -> bool {
        &&& self.board_size.0 >= 1
        &&& self.board_size.1 >= 1
        &&& self.snake@.len() >= 1
        &&& forall|i: int| 0 <= i < self.snake@.len() ==> in_bounds(#[trigger] self.snake@[i], self.board_size)
        &&& in_bounds(self.apple_pos, self.board_size)
    }

    /// No two cells of the snake body are equal.
    pub open spec fn snake_distinct(self) -> bool {
        forall|i: int, j: int| 0 <= i < j < self.snake@.len() ==> self.snake@[i] != self.snake@[j]
    }

    /// The cell one step from the head in the current heading. Moving up or
    /// left off the board cannot be represented in unsigned coordinates, so
    /// an attempted decrement below zero is reported as out of bounds here;
    /// stepping past the upper bounds yields a transient off-board cell that
    /// `spec_check_pos` rejects.
    pub open spec fn spec_next_pos(self) -> Result<(usize, usize), GameOverState>
        recommends
            self.snake@.len() >= 1,
    {
        let head = self.snake@.last();
        match self.direction {
            Direction::Up => if head.0 == 0 {
                Err(GameOverState::OutOfBounds)
            } else {
                Ok(((head.0 - 1) as usize, head.1))
            },
            Direction::Left => if head.1 == 0 {
                Err(GameOverState::OutOfBounds)
            } else {
                Ok((head.0, (head.1 - 1) as usize))
            },
            Direction::Down => Ok(((head.0 + 1) as usize, head.1)),
            Direction::Right => Ok((head.0, (head.1 + 1) as usize)),
        }
    }

    /// What a target cell holds: out of bounds and self-collision end the
    /// game; otherwise the cell is the apple or empty. The apple is checked
    /// before the body, so a cell that holds both counts as the apple.
    pub open spec fn spec_check_pos(self, pos: (usize, usize)) -> Result<BoardState, GameOverState> {
        if !in_bounds(pos, self.board_size) {
            Err(GameOverState::OutOfBounds)
        } else if pos == self.apple_pos {
            Ok(BoardState::Apple)
        } else if self.snake@.contains(pos) {
            Err(GameOverState::SnakeBite)
        } else {
            Ok(BoardState::Empty)
        }
    }

    /// Computes the cell the head would move into, or reports that the move
    /// would leave the board through the zero edge.
    pub fn next_pos(&self) -> (r: Result<(usize, usize), GameOverState>)
        requires
            self.wf(),
        ensures
            r == self.spec_next_pos(),
    {
        let head = self.snake[self.snake.len() - 1];
        match self.direction {
            Direction::Up => {
                if head.0 == 0 {
                    Err(GameOverState::OutOfBounds)
                } else {
                    Ok((head.0 - 1, head.1))
                }
            },
            Direction::Left => {
                if head.1 == 0 {
                    Err(GameOverState::OutOfBounds)
                } else {
                    Ok((head.0, head.1 - 1))
                }
            },
            Direction::Down => Ok((head.0 + 1, head.1)),
            Direction::Right => Ok((head.0, head.1 + 1)),
        }
    }

    /// Classifies a target cell: `OutOfBounds` past either board bound,
    /// `SnakeBite` on any cell of the body, otherwise apple or empty.
    pub fn check_pos(&self, pos: (usize, usize)) -> (r: Result<BoardState, GameOverState>)
        ensures
            r == self.spec_check_pos(pos),
    {
        if pos.1 >= self.board_size.1 || pos.0 >= self.board_size.0 {
            return Err(GameOverState::OutOfBounds);
        } else if pos.1 == self.apple_pos.1 && pos.0 == self.apple_pos.0 {
            return Ok(BoardState::Apple);
        }
        let n = self.snake.len();
        for i in 0..n
            invariant
                n == self.snake@.len(),
                in_bounds(pos, self.board_size),
                pos != self.apple_pos,
                forall|j: int| 0 <= j < i ==> self.snake@[j] != pos,
        {
            let snake_pos = self.snake[i];
            if pos.0 == snake_pos.0 && pos.1 == snake_pos.1 {
                return Err(GameOverState::SnakeBite);
            }
        }
        Ok(BoardState::Empty)
    }

    /// Draws a fresh apple cell, uniformly over the board, independently of
    /// everything else. The draw is not corrected against the snake body: in
    /// rare cases the apple may land on a cell the snake occupies, in which
    /// case entering that cell counts as eating the apple.
    fn gen_apple(max_x: usize, max_y: usize) -> (p: (usize, usize))
        requires
            max_x >= 1,
            max_y >= 1,
        ensures
            p.0 < max_x,
            p.1 < max_y,
    {
        let x = random_usize() % max_x;
        let y = random_usize() % max_y;
        (x, y)
    }

    /// Replaces the apple with a freshly drawn cell on the board; nothing
    /// else changes.
    pub fn new_apple(&mut self)
        requires
            old(self).board_size.0 >= 1,
            old(self).board_size.1 >= 1,
        ensures
            in_bounds(final(self).apple_pos, old(self).board_size),
            final(self).apple_old == old(self).apple_old,
            final(self).board_size == old(self).board_size,
            final(self).snake@ == old(self).snake@,
            final(self).snake_old@ == old(self).snake_old@,
            final(self).direction == old(self).direction,
    {
        self.apple_pos = Self::gen_apple(self.board_size.0, self.board_size.1);
    }
}

/// How one movement step relates the state before it to the state after it,
/// leaving the heading and the render snapshots aside. The apple's new cell
/// after growth is random, so only its bounds are related.
pub open spec fn advance_rel(pre: Game, post: Game, r: Result<(), GameOverState>) -> bool {
    &&& post.board_size == pre.board_size
    &&& post.snake_old@ == pre.snake_old@
    &&& post.apple_old == pre.apple_old
    &&& match pre.spec_next_pos() {
        Err(e) => {
            &&& r == Err::<(), GameOverState>(e)
            &&& post.snake@ == pre.snake@
            &&& post.apple_pos == pre.apple_pos
        },
        Ok(cell) => match pre.spec_check_pos(cell) {
            Err(e) => {
                &&& r == Err::<(), GameOverState>(e)
                &&& post.snake@ == pre.snake@
                &&& post.apple_pos == pre.apple_pos
            },
            Ok(BoardState::Apple) => {
                &&& r == Ok::<(), GameOverState>(())
                &&& post.snake@ == pre.snake@.push(cell)
                &&& post.snake@.len() == pre.snake@.len() + 1
                &&& in_bounds(post.apple_pos, pre.board_size)
            },
            Ok(BoardState::Empty) => {
                &&& r == Ok::<(), GameOverState>(())
                &&& post.snake@ == pre.snake@.subrange(1, pre.snake@.len() as int).push(cell)
                &&& post.snake@.len() == pre.snake@.len()
                &&& post.apple_pos == pre.apple_pos
            },
        },
    }
}

impl Game {
    /// Moves the snake one cell in the current heading: out of bounds or a
    /// body cell ends the game; the apple cell grows the snake by one (the
    /// tail stays and a fresh apple is drawn); an empty cell translates it
    /// (tail popped, head pushed). The heading itself never changes here.
    pub fn advance(&mut self) -> (r: Result<(), GameOverState>)
        requires
            old(self).wf(),
        ensures
            final(self).wf(),
            final(self).direction == old(self).direction,
            advance_rel(*old(self), *final(self), r),
    {
        let next_pos = match self.next_pos() {
            Ok(p) => p,
            Err(e) => {
                return Err(e);
            },
        };

        match self.check_pos(next_pos) {
            Ok(BoardState::Apple) => {
                self.new_apple();
            },
            Ok(BoardState::Empty) => {
                self.snake.pop_front();
            },
            Err(e) => {
                return Err(e);
            },
        }
        self.snake.push_back(next_pos);
        Ok(())
    }
}

impl Game {
    /// The same state with another heading.
    pub open spec fn with_direction(self, d: Direction) -> Game {
        Game { direction: d, ..self }
    }

    /// Reduces the turns queued since the last tick to this tick's action.
    /// No queued turn, or an illegal sequence, keeps the current heading; one
    /// valid turn moves with the new heading; two or more queued turns whose
    /// last two are valid in sequence move with the first of the two and then
    /// adopt the second without a further move this tick.
    pub open spec fn spec_get_step(self, turns: Seq<Direction>) -> Step {
        if turns.len() == 1 && spec_valid_direction(self.direction, turns[0]) {
            Step::Turn(turns[0])
        } else if turns.len() >= 2 && spec_valid_direction(self.direction, turns[turns.len() - 2])
            && spec_valid_direction(turns[turns.len() - 2], turns[turns.len() - 1]) {
            Step::MoveAndTurn { step_direction: turns[turns.len() - 2], new_direction: turns[turns.len() - 1] }
        } else {
            Step::Turn(self.direction)
        }
    }

    /// Applies the queuing policy to the turns drained since the last tick.
    pub fn get_step(&self, input: &Vec<Direction>) -> (s: Step)
        ensures
            s == self.spec_get_step(input@),
    {
        let n = input.len();
        if n == 1 && Direction::valid_direction(&self.direction, &input[0]) {
            Step::Turn(input[0])
        } else if n >= 2 && Direction::valid_direction(&self.direction, &input[n - 2])
            && Direction::valid_direction(&input[n - 2], &input[n - 1]) {
            Step::MoveAndTurn { step_direction: input[n - 2], new_direction: input[n - 1] }
        } else {
            Step::Turn(self.direction)
        }
    }

    /// Performs one tick's action: adopt the step's heading, move once, and
    /// for a two-phase step adopt the second heading after the move (with no
    /// further move). A game-over from the move is returned unchanged.
    pub fn update(&mut self, step: Step) -> (r: Result<(), GameOverState>)
        requires
            old(self).wf(),
        ensures
            final(self).wf(),
            match step {
                Step::Turn(d) => {
                    &&& advance_rel(old(self).with_direction(d), *final(self), r)
                    &&& final(self).direction == d
                },
                Step::MoveAndTurn { step_direction, new_direction } => {
                    &&& advance_rel(old(self).with_direction(step_direction), *final(self), r)
                    &&& (r is Ok ==> final(self).direction == new_direction)
                    &&& (r is Err ==> final(self).direction == step_direction)
                },
            },
    {
        match step {
            Step::Turn(direction) => {
                self.direction = direction;
                self.advance()?;
            },
            Step::MoveAndTurn { step_direction, new_direction } => {
                self.direction = step_direction;
                self.advance()?;
                self.direction = new_direction;
            },
        }
        Ok(())
    }

    /// Resolves the drained turn queue and performs the tick it calls for.
    pub fn tick(&mut self, turns: &Vec<Direction>) -> (r: Result<(), GameOverState>)
        requires
            old(self).wf(),
        ensures
            final(self).wf(),
            match old(self).spec_get_step(turns@) {
                Step::Turn(d) => {
                    &&& advance_rel(old(self).with_direction(d), *final(self), r)
                    &&& final(self).direction == d
                },
                Step::MoveAndTurn { step_direction, new_direction } => {
                    &&& advance_rel(old(self).with_direction(step_direction), *final(self), r)
                    &&& (r is Ok ==> final(self).direction == new_direction)
                    &&& (r is Err ==> final(self).direction == step_direction)
                },
            },
    {
        let step = self.get_step(turns);
        self.update(step)
    }
}

impl Game {
    /// Builds the starting state: a five-cell snake lying along the top row
    /// with its head at the right end, heading right, and a random apple.
    /// The render snapshots start out matching the live state but for the
    /// apple snapshot, which is a second random draw, as if a previous tick
    /// had just been committed.
    pub fn new(board_size: (usize, usize)) -> (g: Game)
        requires
            board_size.0 >= 1,
            board_size.1 >= 5,
        ensures
            g.wf(),
            g.board_size == board_size,
            g.direction == Direction::Right,
            g.snake@.len() == 5,
            forall|i: int| 0 <= i < 5 ==> g.snake@[i] == (0usize, i as usize),
            g.snake_old@ == g.snake@,
            in_bounds(g.apple_old, board_size),
    {
        let mut snake: VecDeque<(usize, usize)> = VecDeque::new();
        for n in 0..5usize
            invariant
                snake@.len() == n,
                forall|i: int| 0 <= i < n ==> snake@[i] == (0usize, i as usize),
        {
            snake.push_back((0, n));
        }

        let snake_old = copy_cells(&snake);
        Game {
            apple_pos: Self::gen_apple(board_size.0, board_size.1),
            apple_old: Self::gen_apple(board_size.0, board_size.1),
            board_size,
            snake_old,
            snake,
            direction: Direction::Right,
        }
    }

    /// Overwrites the render snapshots with the live snake and apple, as the
    /// renderer does at the end of a render pass.
    pub fn commit_snapshot(&mut self)
        ensures
            final(self).snake_old@ == old(self).snake@,
            final(self).apple_old == old(self).apple_pos,
            final(self).snake@ == old(self).snake@,
            final(self).apple_pos == old(self).apple_pos,
            final(self).board_size == old(self).board_size,
            final(self).direction == old(self).direction,
    {
        self.snake_old = copy_cells(&self.snake);
        self.apple_old = self.apple_pos;
    }
}

/// Copies a cell sequence element by element.
fn copy_cells(v: &VecDeque<(usize, usize)>) -> (r: VecDeque<(usize, usize)>)
    ensures
        r@ == v@,
{
    let mut r: VecDeque<(usize, usize)> = VecDeque::new();
    let n = v.len();
    for i in 0..n
        invariant
            n == v@.len(),
            r@ == v@.subrange(0, i as int),
    {
        r.push_back(v[i]);
    }
    r
}

/// Law: a bounds-checked cell that the snake occupies and that does not hold
/// the apple is classified as a self-collision. (When the randomly drawn
/// apple lies on the body, entering that cell counts as the apple instead:
/// the apple is checked first.)
pub proof fn lemma_snake_cell_bites(g: Game, cell: (usize, usize))
    requires
        in_bounds(cell, g.board_size),
        g.snake@.contains(cell),
        cell != g.apple_pos,
    ensures
        g.spec_check_pos(cell) == Err::<BoardState, GameOverState>(GameOverState::SnakeBite),
{
}

/// Law: a target cell at or past either board bound is classified out of
/// bounds, and a move that would take the head's row or column below zero is
/// reported out of bounds before any cell is classified.
pub proof fn lemma_out_of_bounds(g: Game, cell: (usize, usize))
    requires
        g.snake@.len() >= 1,
    ensures
        !in_bounds(cell, g.board_size) ==> g.spec_check_pos(cell)
            == Err::<BoardState, GameOverState>(GameOverState::OutOfBounds),
        g.direction == Direction::Up && g.snake@.last().0 == 0 ==> g.spec_next_pos()
            == Err::<(usize, usize), GameOverState>(GameOverState::OutOfBounds),
        g.direction == Direction::Left && g.snake@.last().1 == 0 ==> g.spec_next_pos()
            == Err::<(usize, usize), GameOverState>(GameOverState::OutOfBounds),
{
}

/// Law: as long as the apple does not lie on the snake body, a move keeps
/// the body cells pairwise distinct. (The uncorrected random draw may in
/// rare cases put the apple on the body; growing onto such an apple is the
/// one way a duplicate cell can arise.)
pub proof fn lemma_advance_keeps_distinct(pre: Game, post: Game, r: Result<(), GameOverState>)
    requires
        pre.snake_distinct(),
        !pre.snake@.contains(pre.apple_pos),
        advance_rel(pre, post, r),
    ensures
        post.snake_distinct(),
{
    match pre.spec_next_pos() {
        Err(_) => {},
        Ok(cell) => match pre.spec_check_pos(cell) {
            Err(_) => {},
            Ok(BoardState::Apple) => {
                assert forall|i: int, j: int| 0 <= i < j < post.snake@.len() implies post.snake@[i]
                    != post.snake@[j] by {
                    if j == post.snake@.len() - 1 {
                        assert(pre.snake@.contains(pre.snake@[i]));
                    }
                }
            },
            Ok(BoardState::Empty) => {
                assert forall|i: int, j: int| 0 <= i < j < post.snake@.len() implies post.snake@[i]
                    != post.snake@[j] by {
                    if j == post.snake@.len() - 1 {
                        assert(post.snake@[i] == pre.snake@[i + 1]);
                        assert(pre.snake@.contains(pre.snake@[i + 1]));
                    } else {
                        assert(post.snake@[i] == pre.snake@[i + 1]);
                        assert(post.snake@[j] == pre.snake@[j + 1]);
                    }
                }
            },
        },
    }
}

/// Relies on rand::random: draws an arbitrary machine-word value from the
/// thread-local generator; nothing is promised of the value.
#[verifier::external_body]
fn random_usize() -> usize {
    rand::random::<usize>()
}

} // verus!

