//! Food: where it may appear, how it is placed and how it is kept.

use crate::config::{FOOD_COLOR_END, FOOD_COLOR_FIRST, MAX_FOOD_COUNT};
use crate::ground::{CoordSystem, Grid, Position};
use crate::MaxEntities;
use rand::Rng;
use vstd::prelude::*;

verus! {

/// Draws an integer from `low..high` with `rand::thread_rng().gen_range`.
/// The generator is seeded by the system, so nothing is claimed of the value
/// but what `gen_range` documents: it lies in the range. `gen_range` panics
/// on an empty range, which `requires` leaves out. `thread_rng` panics where
/// the system cannot seed it, which no argument decides.
#[verifier::external_body]
fn gen_range(low: i32, high: i32) -> (value: i32)
    requires
        low < high,
    ensures
        low <= value < high,
{
    rand::thread_rng().gen_range(low..high)
}

/// Whether one of `obstacles` lies on the cell of `position`.
pub open spec fn blocked(obstacles: Seq<Position>, position: Position) -> bool {
    exists|i: int| 0 <= i < obstacles.len() && obstacles[i].same_cell(position)
}

/// Picks the food that lies on the cell of `cell`.
pub open spec fn food_on(cell: Position) -> spec_fn(Food) -> bool {
    |food: Food| food.position.same_cell(cell)
}

/// Picks the food that lies on another cell than that of `cell`.
pub open spec fn food_off(cell: Position) -> spec_fn(Food) -> bool {
    |food: Food| !food.position.same_cell(cell)
}

/// One piece of food: the cell it lies on and the hue it is drawn with.
#[derive(Clone, Copy, Debug, PartialEq, Eq, Structural)]
pub struct Food {
    pub position: Position,
    pub hue: u16,
}

impl Food {
    /// Whether a hue is one that food is drawn with.
    pub open spec fn is_food_color(hue: u16) -> bool {
        FOOD_COLOR_FIRST <= hue < FOOD_COLOR_END
    }

    /// Whether this piece could have been placed on `grid` beside
    /// `obstacles`: it lies on a free cell of the grid, on the bottom layer,
    /// and has a colour of food.
    pub open spec fn fits(self, obstacles: Seq<Position>, grid: Grid) -> bool {
        &&& grid.holds(&self.position)
        &&& self.position.z == 0
        &&& !blocked(obstacles, self.position)
        &&& Self::is_food_color(self.hue)
    }

    /// Tries once to place a piece of food on a random cell of the grid. The
    /// attempt is given up when the cell drawn is blocked, so it can only
    /// fail while a cell of the grid is blocked.
    pub fn spawn(obstacles: &Vec<Position>, grid: &Grid) -> (spawned: Option<Food>)
        ensures
            spawned matches Some(food) ==> food.fits(obstacles@, *grid),
            spawned is None ==> exists|position: Position|
                grid.holds(&position) && #[trigger] blocked(obstacles@, position),
    {
        let position: Position = Self::random_position(grid);
        if Self::no_obstacles_for(&position, obstacles) {
            let hue: u16 = Self::food_color();
            Some(Food { position, hue })
        } else {
            None
        }
    }

    /// Whether no obstacle lies on the cell of `position`.
    pub fn no_obstacles_for(position: &Position, obstacles: &Vec<Position>) -> (free: bool)
        ensures
            free == !blocked(obstacles@, *position),
    {
        let mut i: usize = 0;
        while i < obstacles.len()
            invariant
                0 <= i <= obstacles.len(),
                forall|j: int| 0 <= j < i ==> !obstacles@[j].same_cell(*position),
            decreases obstacles.len() - i,
        {
            if CoordSystem::in_one_position(&obstacles[i], position) {
                return false;
            }
            i += 1;
        }
        true
    }

    /// A random hue for a piece of food.
    pub fn food_color() -> (hue: u16)
        ensures
            Self::is_food_color(hue),
    {
        let random: i32 = gen_range(FOOD_COLOR_FIRST as i32, FOOD_COLOR_END as i32);
        random as u16
    }

    /// A random cell of the grid, on the bottom layer.
    pub fn random_position(grid: &Grid) -> (position: Position)
        ensures
            grid.holds(&position),
            position.z == 0,
    {
        let x: i32 = gen_range(0, grid.width() as i32);
        let y: i32 = gen_range(0, grid.height() as i32);
        let z: i32 = 0;

        Position { x, y, z }
    }
}

/// The cap on the food that lies on the grid at once.
pub struct MaxFoodCount;

impl MaxEntities for MaxFoodCount {
    open spec fn max() -> usize {
        MAX_FOOD_COUNT
    }

    fn count() -> usize {
        MAX_FOOD_COUNT
    }
}

/// The food that lies on the grid, oldest first. It never holds more pieces
/// than `MaxFoodCount` allows.
#[derive(Debug)]
pub struct FoodSet {
    items: Vec<Food>,
}

impl View for FoodSet {
    type V = Seq<Food>;

    closed spec fn view(&self) -> Seq<Food> {
        self.items@
    }
}

impl FoodSet {
    #[verifier::type_invariant]
    pub open spec fn within_cap(self) -> bool {
        self@.len() <= MaxFoodCount::max()
    }

    pub fn new() -> (food: FoodSet)
        ensures
            food@ == Seq::<Food>::empty(),
            food.within_cap(),
    {
        FoodSet { items: Vec::new() }
    }

    /// The set of the given pieces. There is none of more pieces than the
    /// cap allows.
    pub fn from_vec(items: Vec<Food>) -> (food: Option<FoodSet>)
        ensures
            items@.len() > MaxFoodCount::max() <==> food is None,
            food matches Some(food) ==> food@ == items@ && food.within_cap(),
    {
        if items.len() <= MaxFoodCount::count() {
            Some(FoodSet { items })
        } else {
            None
        }
    }

    /// How many pieces there are: never more than the cap allows.
    pub fn len(&self) -> (len: usize)
        ensures
            len == self@.len(),
            len <= MaxFoodCount::max(),
    {
        proof {
            use_type_invariant(self);
        }
        self.items.len()
    }

    /// The pieces, oldest first.
    pub fn items(&self) -> (items: &Vec<Food>)
        ensures
            items@ == self@,
            items@.len() <= MaxFoodCount::max(),
    {
        proof {
            use_type_invariant(self);
        }
        &self.items
    }

    /// Takes out the food that lies on the cell of `cell` and hands it back.
    /// The rest stays in its order.
    pub fn take_on(&mut self, cell: &Position) -> (taken: Vec<Food>)
        ensures
            taken@ == old(self)@.filter(food_on(*cell)),
            final(self)@ == old(self)@.filter(food_off(*cell)),
            final(self).within_cap(),
    {
        let ghost on = food_on(*cell);
        let ghost off = food_off(*cell);
        let mut taken: Vec<Food> = Vec::new();
        let mut left: Vec<Food> = Vec::new();
        let mut i: usize = 0;
        proof {
            reveal(Seq::filter);
            assert(self@.take(0).filter(on) =~= Seq::<Food>::empty());
            assert(self@.take(0).filter(off) =~= Seq::<Food>::empty());
        }
        while i < self.items.len()
            invariant
                0 <= i <= self@.len(),
                self@ == old(self)@,
                self@ == self.items@,
                on == food_on(*cell),
                off == food_off(*cell),
                taken@ == self@.take(i as int).filter(on),
                left@ == self@.take(i as int).filter(off),
            decreases self@.len() - i,
        {
            let piece: Food = self.items[i];
            proof {
                reveal(Seq::filter);
                assert(self@.take(i + 1).drop_last() =~= self@.take(i as int));
            }
            if CoordSystem::in_one_position(&piece.position, cell) {
                taken.push(piece);
            } else {
                left.push(piece);
            }
            i += 1;
        }
        proof {
            use_type_invariant(&*self);
            assert(self@.take(i as int) =~= self@);
            self@.lemma_filter_len(off);
        }
        self.items = left;
        taken
    }

    /// Tries once to place a new piece of food, if the cap leaves room for
    /// one. `obstacles` are the cells that are taken: those of the snake and
    /// those that hold food.
    pub fn try_spawn(&mut self, obstacles: &Vec<Position>, grid: &Grid) -> (spawned: Option<Food>)
        ensures
            final(self)@ == match spawned {
                Some(food) => old(self)@.push(food),
                None => old(self)@,
            },
            final(self).within_cap(),
            spawned matches Some(food) ==> {
                &&& old(self)@.len() < MaxFoodCount::max()
                &&& food.fits(obstacles@, *grid)
            },
            spawned is None && old(self)@.len() < MaxFoodCount::max() ==> exists|
                position: Position,
            |
                grid.holds(&position) && #[trigger] blocked(obstacles@, position),
    {
        proof {
            use_type_invariant(&*self);
        }
        if !MaxFoodCount::is_more_than(self.items.len()) {
            return None;
        }
        let spawned: Option<Food> = Food::spawn(obstacles, grid);
        if let Some(food) = spawned {
            let mut items: Vec<Food> = Vec::new();
            std::mem::swap(&mut items, &mut self.items);
            items.push(food);
            self.items = items;
        }
        spawned
    }
}

} // verus!
