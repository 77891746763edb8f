//! The whole game as one state, taken from tick to tick.

use crate::food::{blocked, food_off, food_on, Food, FoodSet, MaxFoodCount};
use crate::ground::{Grid, Position};
use crate::player::{Player, PlayerGrowthEvent, PlayerView, PressedKeys};
use crate::MaxEntities;
use vstd::prelude::*;

verus! {

/// The game as a value of mathematics.
pub struct SimulationView {
    pub player: PlayerView,
    /// The food on the grid, oldest first.
    pub food: Seq<Food>,
    /// The growth events that the next tick takes.
    pub growth_events: Seq<PlayerGrowthEvent>,
    pub grid: Grid,
}

impl SimulationView {
    /// No more food lies on the grid than the cap allows.
    pub open spec fn within_cap(self) -> bool {
        self.food.len() <= MaxFoodCount::max()
    }

    /// The cells that are taken: those of the snake, then those that hold
    /// food.
    pub open spec fn obstacles(self) -> Seq<Position> {
        self.player.segments + self.food.map_values(|food: Food| food.position)
    }

    /// The snake after this tick's move, and after it has grown if a growth
    /// event was waiting.
    pub open spec fn snake_after_tick(self) -> PlayerView {
        if self.growth_events.len() > 0 {
            self.player.moved().grown()
        } else {
            self.player.moved()
        }
    }

    /// The game after the part of a tick that chance has no hand in: the
    /// snake has moved and grown, and the food under its head is eaten, one
    /// growth event waiting for each piece.
    pub open spec fn after_step(self) -> SimulationView {
        let player = self.snake_after_tick();
        SimulationView {
            player,
            food: self.food.filter(food_off(player.head())),
            growth_events: Seq::new(
                self.food.filter(food_on(player.head())).len(),
                |i: int| PlayerGrowthEvent,
            ),
            grid: self.grid,
        }
    }

    /// The game with one more piece of food.
    pub open spec fn fed(self, food: Food) -> SimulationView {
        SimulationView { food: self.food.push(food), ..self }
    }

    /// Whether a new piece `food` may be placed: the cap leaves room, and
    /// the piece fits on the grid beside what is there.
    pub open spec fn admits(self, food: Food) -> bool {
        self.food.len() < MaxFoodCount::max() && food.fits(self.obstacles(), self.grid)
    }

    /// Whether a cell of the grid is taken, so that an attempt to place food
    /// can fail.
    pub open spec fn has_taken_cell(self) -> bool {
        exists|position: Position|
            self.grid.holds(&position) && #[trigger] blocked(self.obstacles(), position)
    }

    /// Food that may be placed lies on no cell of the snake and on no cell
    /// that holds food already.
    pub proof fn placed_food_lies_free(self, food: Food)
        requires
            self.admits(food),
        ensures
            forall|i: int|
                0 <= i < self.player.segments.len() ==> !self.player.segments[i].same_cell(
                    food.position,
                ),
            forall|i: int| 0 <= i < self.food.len() ==> !self.food[i].position.same_cell(
                food.position,
            ),
    {
        let obstacles = self.obstacles();
        assert forall|i: int| 0 <= i < self.player.segments.len() implies !self.player.segments[i].same_cell(
            food.position,
        ) by {
            assert(obstacles[i] == self.player.segments[i]);
        }
        assert forall|i: int| 0 <= i < self.food.len() implies !self.food[i].position.same_cell(
            food.position,
        ) by {
            assert(obstacles[self.player.segments.len() + i] == self.food[i].position);
        }
    }

    /// The cap on food holds through every tick: eating only takes food
    /// away, and food is placed only where the cap leaves room.
    pub proof fn cap_is_kept(self, food: Food)
        requires
            self.within_cap(),
        ensures
            self.after_step().within_cap(),
            self.admits(food) ==> self.fed(food).within_cap(),
    {
        self.food.lemma_filter_len(food_off(self.snake_after_tick().head()));
    }
}

/// What one tick brought about.
#[derive(Clone, Copy, Debug, PartialEq, Eq, Structural)]
pub struct TickReport {
    /// The snake grew by a segment.
    pub grown: bool,
    /// The head lies on a cell of the body behind it.
    pub collision_with_tail: bool,
    /// The head lies outside the grid.
    pub out_bounds: bool,
    /// How many pieces of food the snake ate.
    pub eaten: usize,
    /// The piece of food that was placed, if one was.
    pub spawned: Option<Food>,
}

/// The game: the snake, the food and the grid they live on. A collision and
/// a head outside the grid are reported and end nothing.
#[derive(Debug)]
pub struct SimulationState {
    player: Player,
    food: FoodSet,
    growth_events: Vec<PlayerGrowthEvent>,
    grid: Grid,
}

impl View for SimulationState {
    type V = SimulationView;

    closed spec fn view(&self) -> SimulationView {
        SimulationView {
            player: self.player@,
            food: self.food@,
            growth_events: self.growth_events@,
            grid: self.grid,
        }
    }
}

impl SimulationState {
    /// A game at its start: the snake at its starting cell, no food yet.
    pub fn new(grid: Grid) -> (state: SimulationState)
        ensures
            state@ == (SimulationView {
                player: Player::spawn_view(),
                food: Seq::<Food>::empty(),
                growth_events: Seq::<PlayerGrowthEvent>::empty(),
                grid,
            }),
    {
        SimulationState {
            player: Player::spawn(),
            food: FoodSet::new(),
            growth_events: Vec::new(),
            grid,
        }
    }

    /// A game that goes on from a given snake and given food.
    pub fn from_parts(player: Player, food: FoodSet, grid: Grid) -> (state: SimulationState)
        ensures
            state@ == (SimulationView {
                player: player@,
                food: food@,
                growth_events: Seq::<PlayerGrowthEvent>::empty(),
                grid,
            }),
    {
        SimulationState { player, food, growth_events: Vec::new(), grid }
    }

    pub fn player(&self) -> (player: &Player)
        ensures
            player@ == self@.player,
    {
        &self.player
    }

    /// The food on the grid. It is never more than the cap allows.
    pub fn food(&self) -> (food: &FoodSet)
        ensures
            food@ == self@.food,
            self@.within_cap(),
    {
        proof {
            use_type_invariant(&self.food);
        }
        &self.food
    }

    pub fn grid(&self) -> (grid: Grid)
        ensures
            grid == self@.grid,
    {
        self.grid
    }

    /// The cells that are taken: those of the snake, then those that hold
    /// food.
    pub fn obstacles(&self) -> (obstacles: Vec<Position>)
        ensures
            obstacles@ == self@.obstacles(),
    {
        let mut obstacles: Vec<Position> = self.player.segments();
        let food: &Vec<Food> = self.food.items();
        let mut i: usize = 0;
        while i < food.len()
            invariant
                0 <= i <= food@.len(),
                food@ == self@.food,
                obstacles@ =~= self@.player.segments + food@.take(i as int).map_values(
                    |food: Food| food.position,
                ),
            decreases food@.len() - i,
        {
            obstacles.push(food[i].position);
            i += 1;
        }
        assert(food@.take(i as int) =~= food@);
        obstacles
    }

    /// Steers the snake by the keys held down in a frame.
    pub fn controls(&mut self, key: &PressedKeys)
        ensures
            final(self)@ == (SimulationView {
                player: old(self)@.player.steered(key.candidate()),
                ..old(self)@
            }),
    {
        self.player.controls(key);
    }

    /// The part of a tick that chance has no hand in. The snake moves along
    /// its committed heading. If a growth event waits from the tick before,
    /// it grows into the cell its trailing end has just left. Then the head is
    /// held against the body and the grid, and the food under it is eaten.
    pub fn step(&mut self) -> (report: TickReport)
        requires
            old(self)@.player.can_move(),
        ensures
            final(self)@ == old(self)@.after_step(),
            final(self)@.within_cap(),
            report.grown == (old(self)@.growth_events.len() > 0 && old(
                self,
            )@.player.moved().vacated is Some),
            report.collision_with_tail == final(self)@.player.hits_itself(),
            report.out_bounds == !final(self)@.grid.holds(&final(self)@.player.head()),
            report.eaten == final(self)@.growth_events.len(),
            report.spawned is None,
    {
        self.player.moving();
        let grown: bool = self.player.growth(&mut self.growth_events);
        let collision_with_tail: bool = self.player.collision_with_tail();
        let out_bounds: bool = self.player.out_bounds(&self.grid);
        let eaten: Vec<Food> = self.player.eat(&mut self.food, &mut self.growth_events);
        proof {
            use_type_invariant(&self.food);
        }
        TickReport { grown, collision_with_tail, out_bounds, eaten: eaten.len(), spawned: None }
    }

    /// Tries once to place a new piece of food on a random free cell, if the
    /// cap leaves room for one. The attempt can fail only while a cell of the
    /// grid is taken.
    pub fn replenish(&mut self) -> (spawned: Option<Food>)
        ensures
            final(self)@ == match spawned {
                Some(food) => old(self)@.fed(food),
                None => old(self)@,
            },
            final(self)@.within_cap(),
            spawned matches Some(food) ==> old(self)@.admits(food),
            spawned matches Some(food) ==> forall|i: int|
                #![auto]
                0 <= i < final(self)@.player.segments.len()
                    ==> !final(self)@.player.segments[i].same_cell(food.position),
            spawned is None && old(self)@.food.len() < MaxFoodCount::max() ==> old(
                self,
            )@.has_taken_cell(),
    {
        let obstacles: Vec<Position> = self.obstacles();
        let spawned: Option<Food> = self.food.try_spawn(&obstacles, &self.grid);
        proof {
            use_type_invariant(&self.food);
            if let Some(food) = spawned {
                old(self)@.placed_food_lies_free(food);
            }
        }
        spawned
    }

    /// One tick of the game: `step`, then `replenish`.
    pub fn tick(&mut self) -> (report: TickReport)
        requires
            old(self)@.player.can_move(),
        ensures
            final(self)@ == match report.spawned {
                Some(food) => old(self)@.after_step().fed(food),
                None => old(self)@.after_step(),
            },
            final(self)@.within_cap(),
            report.spawned matches Some(food) ==> old(self)@.after_step().admits(food),
            report.spawned matches Some(food) ==> forall|i: int|
                #![auto]
                0 <= i < final(self)@.player.segments.len()
                    ==> !final(self)@.player.segments[i].same_cell(food.position),
            report.spawned is None && old(self)@.after_step().food.len() < MaxFoodCount::max()
                ==> old(self)@.after_step().has_taken_cell(),
            report.grown == (old(self)@.growth_events.len() > 0 && old(
                self,
            )@.player.moved().vacated is Some),
            report.collision_with_tail == final(self)@.player.hits_itself(),
            report.out_bounds == !final(self)@.grid.holds(&final(self)@.player.head()),
            report.eaten == final(self)@.growth_events.len(),
    {
        let report: TickReport = self.step();
        let spawned: Option<Food> = self.replenish();
        TickReport { spawned, ..report }
    }
}

} // verus!
