//! The snake: its heading, its ordered body and the rules that move it.

use crate::config::{PLAYER_X, PLAYER_Y, PLAYER_Z};
use crate::food::{food_off, food_on, Food, FoodSet};
use crate::ground::{CoordSystem, Grid, Position};
use vstd::prelude::*;

verus! {

/// A heading on the grid. `Idle` is the heading of a snake that has not been
/// steered yet: it points nowhere.
#[derive(Clone, Copy, Debug, PartialEq, Eq, Structural)]
pub enum Direction {
    Left,
    Up,
    Right,
    Down,
    Idle,
}

impl Direction {
    /// The heading turned by half a circle.
    pub open spec fn inverted(&self) -> Direction {
        match self {
            Direction::Left => Direction::Right,
            Direction::Up => Direction::Down,
            Direction::Right => Direction::Left,
            Direction::Down => Direction::Up,
            Direction::Idle => Direction::Idle,
        }
    }

    /// How far one step along this heading moves a cell on the x axis.
    pub open spec fn dx(self) -> int {
        match self {
            Direction::Left => -1,
            Direction::Right => 1,
            _ => 0,
        }
    }

    /// How far one step along this heading moves a cell on the y axis.
    pub open spec fn dy(self) -> int {
        match self {
            Direction::Up => 1,
            Direction::Down => -1,
            _ => 0,
        }
    }

    #[verifier::when_used_as_spec(inverted)]
    pub fn invert(&self) -> (opposite: Self)
        ensures
            opposite == self.inverted(),
    {
        match self {
            Self::Left => Self::Right,
            Self::Up => Self::Down,
            Self::Right => Self::Left,
            Self::Down => Self::Up,
            Self::Idle => Self::Idle,
        }
    }

    /// Inverting twice gives the heading back, and the heading of a snake at
    /// rest is its own inverse.
    pub proof fn invert_is_involution(d: Direction)
        ensures
            d.invert().invert() == d,
            Direction::Idle.invert() == Direction::Idle,
    {
    }
}

/// Which of the steering keys are held down in a frame.
#[derive(Clone, Copy, Debug, Default, PartialEq, Eq, Structural)]
pub struct PressedKeys {
    pub left: bool,
    pub a: bool,
    pub up: bool,
    pub w: bool,
    pub right: bool,
    pub d: bool,
    pub down: bool,
    pub s: bool,
}

impl PressedKeys {
    /// The heading that the keys ask for. Where keys of several headings are
    /// held, left goes before up, up before right and right before down;
    /// where none is held, the keys ask for nothing.
    pub open spec fn candidate(&self) -> Direction {
        if self.left || self.a {
            Direction::Left
        } else if self.up || self.w {
            Direction::Up
        } else if self.right || self.d {
            Direction::Right
        } else if self.down || self.s {
            Direction::Down
        } else {
            Direction::Idle
        }
    }

    #[verifier::when_used_as_spec(candidate)]
    pub fn direction(&self) -> (direction: Direction)
        ensures
            direction == self.candidate(),
    {
        if self.left || self.a {
            Direction::Left
        } else if self.up || self.w {
            Direction::Up
        } else if self.right || self.d {
            Direction::Right
        } else if self.down || self.s {
            Direction::Down
        } else {
            Direction::Idle
        }
    }
}

/// Sent once for each piece of food that the snake eats.
#[derive(Clone, Copy, Debug, PartialEq, Eq, Structural)]
pub struct PlayerGrowthEvent;

/// A snake as a value of mathematics: what every contract below speaks of.
pub struct PlayerView {
    /// The cells of the body in order, the head first.
    pub segments: Seq<Position>,
    /// The committed heading: the one the next tick moves along.
    pub direction: Direction,
    /// The cell that the trailing end left at the latest move, until the snake
    /// grows into it.
    pub vacated: Option<Position>,
}

impl PlayerView {
    /// Every snake has a head.
    pub open spec fn wf(self) -> bool {
        self.segments.len() >= 1
    }

    pub open spec fn head(self) -> Position {
        self.segments[0]
    }

    /// Whether one step along the committed heading keeps the head's
    /// coordinates within `i32`.
    pub open spec fn can_move(self) -> bool {
        &&& i32::MIN <= self.head().x + self.direction.dx() <= i32::MAX
        &&& i32::MIN <= self.head().y + self.direction.dy() <= i32::MAX
    }

    /// The snake after a request to head for `candidate`. The request is
    /// turned down when it asks for nothing, or for the inverse of the
    /// committed heading, which would run the head into the neck.
    pub open spec fn steered(self, candidate: Direction) -> PlayerView {
        if candidate != self.direction.inverted() && candidate != Direction::Idle {
            PlayerView { direction: candidate, ..self }
        } else {
            self
        }
    }

    /// The snake after it has grown into the cell that its trailing end left.
    /// With no such cell the snake stays as it is.
    pub open spec fn grown(self) -> PlayerView {
        match self.vacated {
            Some(cell) => PlayerView {
                segments: self.segments.push(cell),
                direction: self.direction,
                vacated: None,
            },
            None => self,
        }
    }

    /// Whether no two segments lie on one cell.
    pub open spec fn cells_distinct(self) -> bool {
        forall|i: int, j: int|
            0 <= i < j < self.segments.len() ==> !self.segments[i].same_cell(self.segments[j])
    }

    /// Whether the head lies on the cell of a segment behind it.
    pub open spec fn hits_itself(self) -> bool {
        exists|i: int| 1 <= i < self.segments.len() && self.segments[i].same_cell(self.head())
    }

    /// The snake one tick later. Every segment behind the head takes the cell
    /// of the segment ahead of it, the head moves one cell along the committed
    /// heading, and the cell that the trailing end left is remembered. An
    /// idle snake stays as it is.
    pub open spec fn moved(self) -> PlayerView {
        if self.direction == Direction::Idle {
            self
        } else {
            PlayerView {
                segments: seq![self.head().stepped(self.direction)] + self.segments.drop_last(),
                direction: self.direction,
                vacated: Some(self.segments.last()),
            }
        }
    }

    /// A tick of a snake that is on its way keeps its length, puts every
    /// segment behind the head on the cell that the segment ahead of it had
    /// before the tick, and moves the head by the unit vector of the heading.
    pub proof fn moved_follows_head(self)
        requires
            self.wf(),
            self.can_move(),
            self.direction != Direction::Idle,
        ensures
            self.moved().segments.len() == self.segments.len(),
            forall|i: int|
                1 <= i < self.segments.len() ==> self.moved().segments[i] == self.segments[i - 1],
            self.moved().head().x == self.head().x + self.direction.dx(),
            self.moved().head().y == self.head().y + self.direction.dy(),
            self.moved().head().z == self.head().z,
    {
    }

    /// A tick of a snake at rest changes nothing.
    pub proof fn idle_stays(self)
        requires
            self.direction == Direction::Idle,
        ensures
            self.moved() == self,
    {
    }

    /// A request for the inverse of the committed heading is turned down, and
    /// so is a request for nothing.
    pub proof fn reversal_is_turned_down(self)
        ensures
            self.steered(self.direction.inverted()) == self,
            self.steered(Direction::Idle) == self,
    {
    }

    /// Any other request is taken, and the latest one counts.
    pub proof fn latest_request_counts(self, first: Direction, second: Direction)
        requires
            second != Direction::Idle,
            second != self.steered(first).direction.inverted(),
        ensures
            self.steered(first).steered(second).direction == second,
            self.steered(first).steered(second).segments == self.segments,
    {
    }

    /// After a tick on its way the snake grows by exactly one segment, which
    /// lies on the cell that the trailing end had before the tick; the head
    /// and every other segment stay where the tick put them.
    pub proof fn growth_fills_vacated_cell(self)
        requires
            self.wf(),
            self.direction != Direction::Idle,
        ensures
            self.moved().grown().segments == self.moved().segments.push(self.segments.last()),
            self.moved().grown().segments.len() == self.segments.len() + 1,
            self.moved().grown().direction == self.direction,
    {
    }

    /// The snake never shrinks: a tick and a turn keep its length, and
    /// growing adds to it.
    pub proof fn never_shrinks(self, candidate: Direction)
        requires
            self.wf(),
        ensures
            self.moved().segments.len() == self.segments.len(),
            self.steered(candidate).segments.len() == self.segments.len(),
            self.grown().segments.len() >= self.segments.len(),
            self.moved().wf() && self.steered(candidate).wf() && self.grown().wf(),
    {
    }

    /// A snake whose segments lie on cells of their own keeps them so through
    /// a tick, and through a tick on its way in which it grows, unless the
    /// head then lies on the body: two segments share a cell only where a
    /// collision is told.
    pub proof fn cells_stay_distinct(self)
        requires
            self.wf(),
            self.cells_distinct(),
        ensures
            !self.moved().hits_itself() ==> self.moved().cells_distinct(),
            self.direction != Direction::Idle && !self.moved().grown().hits_itself()
                ==> self.moved().grown().cells_distinct(),
    {
        let moved = self.moved();
        if self.direction != Direction::Idle {
            assert forall|i: int, j: int| 0 <= i < j < moved.segments.len() implies moved.segments[j]
                == self.segments[j - 1] && (i > 0 ==> moved.segments[i] == self.segments[i - 1]) by {}
            let grown = moved.grown();
            assert forall|i: int, j: int| 0 <= i < j < grown.segments.len() implies grown.segments[j]
                == self.segments[j - 1] && (i > 0 ==> grown.segments[i] == self.segments[i - 1]) by {}
        }
    }

    /// Growing is idempotent within a tick: a snake that has grown does not
    /// grow again until it has moved.
    pub proof fn growth_is_idempotent(self)
        ensures
            self.grown().grown() == self.grown(),
    {
    }
}

/// The snake. It is made with one segment, the head, and only ever grows.
#[derive(Debug)]
pub struct Player {
    head: Position,
    tail: Vec<Position>,
    direction: Direction,
    vacated: Option<Position>,
}

impl View for Player {
    type V = PlayerView;

    closed spec fn view(&self) -> PlayerView {
        PlayerView {
            segments: seq![self.head] + self.tail@,
            direction: self.direction,
            vacated: self.vacated,
        }
    }
}

impl Player {
    /// The snake at the start of a game: a head at the starting cell, at rest.
    pub open spec fn spawn_view() -> PlayerView {
        PlayerView {
            segments: seq![Position { x: PLAYER_X, y: PLAYER_Y, z: PLAYER_Z }],
            direction: Direction::Idle,
            vacated: None,
        }
    }

    pub fn spawn() -> (player: Player)
        ensures
            player@ == Self::spawn_view(),
    {
        let player = Player {
            head: Position::new(PLAYER_X, PLAYER_Y, PLAYER_Z),
            tail: Vec::new(),
            direction: Direction::Idle,
            vacated: None,
        };
        assert(player@.segments =~= seq![Position { x: PLAYER_X, y: PLAYER_Y, z: PLAYER_Z }]);
        player
    }

    /// A snake with the given segments, the head first, at rest or on its way.
    /// There is no snake without a head.
    pub fn from_segments(segments: Vec<Position>, direction: Direction) -> (player: Option<Player>)
        ensures
            segments@.len() == 0 <==> player is None,
            player matches Some(player) ==> player@ == (PlayerView {
                segments: segments@,
                direction,
                vacated: None,
            }),
    {
        if segments.len() == 0 {
            return None;
        }
        let mut tail: Vec<Position> = segments;
        let head: Position = tail.remove(0);
        let player = Player { head, tail, direction, vacated: None };
        assert(player@.segments =~= segments@);
        Some(player)
    }

    /// The cells of the body in order, the head first.
    pub fn segments(&self) -> (segments: Vec<Position>)
        ensures
            segments@ == self@.segments,
    {
        let mut segments: Vec<Position> = Vec::new();
        segments.push(self.head);
        let mut i: usize = 0;
        while i < self.tail.len()
            invariant
                0 <= i <= self.tail@.len(),
                segments@ =~= seq![self.head] + self.tail@.take(i as int),
            decreases self.tail@.len() - i,
        {
            segments.push(self.tail[i]);
            i += 1;
        }
        assert(self.tail@.take(i as int) =~= self.tail@);
        segments
    }

    pub fn head(&self) -> (head: Position)
        ensures
            head == self@.head(),
    {
        self.head
    }

    pub fn direction(&self) -> (direction: Direction)
        ensures
            direction == self@.direction,
    {
        self.direction
    }

    /// Whether the next tick keeps the head's coordinates within `i32`: what
    /// `moving` asks of its caller.
    pub fn can_move(&self) -> (fits: bool)
        ensures
            fits == self@.can_move(),
    {
        match self.direction {
            Direction::Left => self.head.x > i32::MIN,
            Direction::Right => self.head.x < i32::MAX,
            Direction::Up => self.head.y < i32::MAX,
            Direction::Down => self.head.y > i32::MIN,
            Direction::Idle => true,
        }
    }

    /// Every snake has a head.
    pub proof fn has_head(&self)
        ensures
            self@.wf(),
    {
    }

    /// Moves the snake by one tick along its committed heading.
    pub fn moving(&mut self)
        requires
            old(self)@.can_move(),
        ensures
            final(self)@ == old(self)@.moved(),
            old(self)@.direction != Direction::Idle ==> {
                &&& final(self)@.segments.len() == old(self)@.segments.len()
                &&& final(self)@.head() == old(self)@.head().stepped(old(self)@.direction)
                &&& forall|i: int|
                    1 <= i < old(self)@.segments.len() ==> final(self)@.segments[i] == old(
                        self,
                    )@.segments[i - 1]
            },
    {
        if self.direction == Direction::Idle {
            return ;
        }
        let ghost before = self@;
        let mut end: Position = self.head;
        let n: usize = self.tail.len();
        let mut i: usize = 0;
        while i < n
            invariant
                0 <= i <= n,
                n == self.tail@.len(),
                n == before.segments.len() - 1,
                self.head == before.head(),
                self.direction == before.direction,
                end == before.segments[i as int],
                forall|j: int| 0 <= j < i ==> self.tail@[j] == before.segments[j],
                forall|j: int| i <= j < n ==> self.tail@[j] == before.segments[j + 1],
            decreases n - i,
        {
            let next: Position = self.tail[i];
            self.tail[i] = end;
            end = next;
            i += 1;
        }
        match self.direction {
            Direction::Left => self.head.x -= 1,
            Direction::Right => self.head.x += 1,
            Direction::Up => self.head.y += 1,
            Direction::Down => self.head.y -= 1,
            Direction::Idle => (),
        }
        self.vacated = Some(end);
        assert(self@.segments =~= before.moved().segments);
    }

    /// Steers the snake by the keys held down in a frame. The latest heading
    /// that is taken before a tick is the one the tick moves along.
    pub fn controls(&mut self, key: &PressedKeys)
        ensures
            final(self)@ == old(self)@.steered(key.candidate()),
            key.candidate() == old(self)@.direction.inverted() ==> final(self)@ == old(self)@,
    {
        let new_direction: Direction = key.direction();

        if new_direction != self.direction.invert() && new_direction != Direction::Idle {
            self.direction = new_direction;
        }
    }

    /// Whether the head lies outside the grid.
    pub fn out_bounds(&self, grid: &Grid) -> (outside: bool)
        ensures
            outside == !grid.holds(&self@.head()),
    {
        !grid.contains(&self.head)
    }

    /// Whether the head has run into the body behind it.
    pub fn collision_with_tail(&self) -> (collides: bool)
        ensures
            collides == self@.hits_itself(),
    {
        let mut i: usize = 0;
        while i < self.tail.len()
            invariant
                0 <= i <= self.tail@.len(),
                forall|j: int| 1 <= j < i + 1 ==> !self@.segments[j].same_cell(self@.head()),
            decreases self.tail@.len() - i,
        {
            if CoordSystem::in_one_position(&self.head, &self.tail[i]) {
                assert(self@.segments[i + 1].same_cell(self@.head()));
                return true;
            }
            i += 1;
        }
        false
    }

    /// Eats the food that lies under the head: takes it out of `food`, in
    /// whose order the rest stays, and sends one growth event for each piece.
    /// What was eaten is handed back.
    pub fn eat(&self, food: &mut FoodSet, growth_writer: &mut Vec<PlayerGrowthEvent>) -> (eaten:
        Vec<Food>)
        ensures
            eaten@ == old(food)@.filter(food_on(self@.head())),
            final(food)@ == old(food)@.filter(food_off(self@.head())),
            final(growth_writer)@ == old(growth_writer)@ + Seq::new(
                eaten@.len(),
                |i: int| PlayerGrowthEvent,
            ),
    {
        let eaten: Vec<Food> = food.take_on(&self.head);
        let mut i: usize = 0;
        while i < eaten.len()
            invariant
                0 <= i <= eaten@.len(),
                growth_writer@ =~= old(growth_writer)@ + Seq::new(
                    i as nat,
                    |i: int| PlayerGrowthEvent,
                ),
            decreases eaten@.len() - i,
        {
            growth_writer.push(PlayerGrowthEvent);
            i += 1;
        }
        eaten
    }

    /// Lets the snake grow by one segment if a growth event has come in.
    /// However many events wait, they are all taken and the snake grows
    /// once, into the cell that its trailing end left at the latest move. A
    /// snake that has not moved since it last grew does not grow.
    pub fn growth(&mut self, growth_reader: &mut Vec<PlayerGrowthEvent>) -> (grown: bool)
        ensures
            final(growth_reader)@.len() == 0,
            final(self)@ == if old(growth_reader)@.len() > 0 {
                old(self)@.grown()
            } else {
                old(self)@
            },
            grown == (old(growth_reader)@.len() > 0 && old(self)@.vacated is Some),
            grown ==> final(self)@.segments == old(self)@.segments.push(old(self)@.vacated->0),
            !grown ==> final(self)@.segments == old(self)@.segments,
    {
        let snake_has_grown: bool = growth_reader.len() > 0;
        growth_reader.clear();

        if snake_has_grown {
            if let Some(position) = self.vacated {
                // Add segment
                self.tail.push(Position::new(position.x, position.y, position.z));

                // The cell is taken
                self.vacated = None;
                assert(self@.segments =~= old(self)@.segments.push(position));
                return true;
            }
        }
        false
    }
}

} // verus!
