use vstd::prelude::*;

verus! {

/// One of the six directions in which thrusters of a grid can push.
#[derive(Copy, Clone, PartialEq, Eq, Structural, PartialOrd, Ord, Hash, Debug)]
pub enum Direction {
    Up,
    Down,
    Front,
    Back,
    Left,
    Right,
}

/// Position of a direction in the canonical order Up, Down, Front, Back, Left, Right.
pub open spec fn direction_index(d: Direction) -> int {
    match d {
        Direction::Up => 0,
        Direction::Down => 1,
        Direction::Front => 2,
        Direction::Back => 3,
        Direction::Left => 4,
        Direction::Right => 5,
    }
}

/// The six directions in canonical order.
pub open spec fn all_directions() -> Seq<Direction> {
    seq![
        Direction::Up,
        Direction::Down,
        Direction::Front,
        Direction::Back,
        Direction::Left,
        Direction::Right,
    ]
}

/// Display name of a direction.
pub open spec fn direction_name(d: Direction) -> Seq<char> {
    match d {
        Direction::Up => "Up"@,
        Direction::Down => "Down"@,
        Direction::Front => "Front"@,
        Direction::Back => "Back"@,
        Direction::Left => "Left"@,
        Direction::Right => "Right"@,
    }
}

impl Default for Direction {
    fn default() -> (r: Self)
        ensures
            r == Direction::Up,
    {
        Direction::Up
    }
}

impl Direction {
    /// All directions, in canonical order.
    pub fn items() -> (r: [Direction; 6])
        ensures
            r@ == all_directions(),
    {
        let r = [
            Direction::Up,
            Direction::Down,
            Direction::Front,
            Direction::Back,
            Direction::Left,
            Direction::Right,
        ];
        assert(r@ =~= all_directions());
        r
    }

    /// Position of this direction in the canonical order.
    pub fn into_index(self) -> (r: usize)
        ensures
            r == direction_index(self),
            r < 6,
    {
        match self {
            Direction::Up => 0,
            Direction::Down => 1,
            Direction::Front => 2,
            Direction::Back => 3,
            Direction::Left => 4,
            Direction::Right => 5,
        }
    }

    /// Display name of this direction.
    pub fn name(&self) -> (r: &'static str)
        ensures
            r@ == direction_name(*self),
    {
        match self {
            Direction::Up => "Up",
            Direction::Down => "Down",
            Direction::Front => "Front",
            Direction::Back => "Back",
            Direction::Left => "Left",
            Direction::Right => "Right",
        }
    }
}

/// The canonical order lists every direction exactly once, each at its own index.
pub proof fn lemma_direction_index_bijective(d: Direction, e: Direction)
    ensures
        0 <= direction_index(d) < 6,
        all_directions()[direction_index(d)] == d,
        direction_index(d) == direction_index(e) ==> d == e,
        all_directions().len() == 6,
{
}

/// A value for each of the six directions.
#[derive(Clone, PartialEq, Eq, PartialOrd, Ord, Hash, Debug)]
pub struct PerDirection<T>(pub [T; 6]);

impl<T> View for PerDirection<T> {
    type V = Seq<T>;

    open spec fn view(&self) -> Seq<T> {
        self.0@
    }
}

impl<T> PerDirection<T> {
    /// Creates a value from the six per-direction values in canonical order.
    pub fn new(values: [T; 6]) -> (r: Self)
        ensures
            r@ == values@,
    {
        PerDirection(values)
    }

    /// The value for `direction`.
    pub fn get(&self, direction: Direction) -> (r: &T)
        ensures
            *r == self@[direction_index(direction)],
    {
        &self.0[direction.into_index()]
    }

    /// Mutable access to the value for `direction`.
    pub fn get_mut(&mut self, direction: Direction) -> (r: &mut T)
        ensures
            *r == old(self)@[direction_index(direction)],
            final(self)@ == old(self)@.update(direction_index(direction), *final(r)),
    {
        &mut self.0[direction.into_index()]
    }

    /// The value for [`Direction::Up`].
    pub fn up(&self) -> (r: &T)
        ensures
            *r == self@[direction_index(Direction::Up)],
    {
        self.get(Direction::Up)
    }

    /// The value for [`Direction::Down`].
    pub fn down(&self) -> (r: &T)
        ensures
            *r == self@[direction_index(Direction::Down)],
    {
        self.get(Direction::Down)
    }

    /// The value for [`Direction::Front`].
    pub fn front(&self) -> (r: &T)
        ensures
            *r == self@[direction_index(Direction::Front)],
    {
        self.get(Direction::Front)
    }

    /// The value for [`Direction::Back`].
    pub fn back(&self) -> (r: &T)
        ensures
            *r == self@[direction_index(Direction::Back)],
    {
        self.get(Direction::Back)
    }

    /// The value for [`Direction::Left`].
    pub fn left(&self) -> (r: &T)
        ensures
            *r == self@[direction_index(Direction::Left)],
    {
        self.get(Direction::Left)
    }

    /// The value for [`Direction::Right`].
    pub fn right(&self) -> (r: &T)
        ensures
            *r == self@[direction_index(Direction::Right)],
    {
        self.get(Direction::Right)
    }

    /// Mutable access to the value for [`Direction::Up`].
    pub fn up_mut(&mut self) -> (r: &mut T)
        ensures
            *r == old(self)@[direction_index(Direction::Up)],
            final(self)@ == old(self)@.update(direction_index(Direction::Up), *final(r)),
    {
        self.get_mut(Direction::Up)
    }

    /// Mutable access to the value for [`Direction::Down`].
    pub fn down_mut(&mut self) -> (r: &mut T)
        ensures
            *r == old(self)@[direction_index(Direction::Down)],
            final(self)@ == old(self)@.update(direction_index(Direction::Down), *final(r)),
    {
        self.get_mut(Direction::Down)
    }

    /// Mutable access to the value for [`Direction::Front`].
    pub fn front_mut(&mut self) -> (r: &mut T)
        ensures
            *r == old(self)@[direction_index(Direction::Front)],
            final(self)@ == old(self)@.update(direction_index(Direction::Front), *final(r)),
    {
        self.get_mut(Direction::Front)
    }

    /// Mutable access to the value for [`Direction::Back`].
    pub fn back_mut(&mut self) -> (r: &mut T)
        ensures
            *r == old(self)@[direction_index(Direction::Back)],
            final(self)@ == old(self)@.update(direction_index(Direction::Back), *final(r)),
    {
        self.get_mut(Direction::Back)
    }

    /// Mutable access to the value for [`Direction::Left`].
    pub fn left_mut(&mut self) -> (r: &mut T)
        ensures
            *r == old(self)@[direction_index(Direction::Left)],
            final(self)@ == old(self)@.update(direction_index(Direction::Left), *final(r)),
    {
        self.get_mut(Direction::Left)
    }

    /// Mutable access to the value for [`Direction::Right`].
    pub fn right_mut(&mut self) -> (r: &mut T)
        ensures
            *r == old(self)@[direction_index(Direction::Right)],
            final(self)@ == old(self)@.update(direction_index(Direction::Right), *final(r)),
    {
        self.get_mut(Direction::Right)
    }

    /// References to the six values in canonical direction order.
    pub fn iter(&self) -> (r: Vec<&T>)
        ensures
            r@.len() == 6,
            forall|i: int| 0 <= i < 6 ==> *#[trigger] r@[i] == self@[i],
    {
        let mut r: Vec<&T> = Vec::new();
        let mut i: usize = 0;
        while i < 6
            invariant
                i <= 6,
                r@.len() == i,
                forall|j: int| 0 <= j < i ==> *#[trigger] r@[j] == self@[j],
            decreases 6 - i,
        {
            r.push(&self.0[i]);
            i = i + 1;
        }
        r
    }

    /// Mutable access to all six values in canonical direction order.
    pub fn iter_mut(&mut self) -> (r: &mut [T; 6])
        ensures
            (*r)@ == old(self)@,
            final(self)@ == (*final(r))@,
    {
        &mut self.0
    }

    /// Each direction paired with its value, in canonical direction order.
    pub fn iter_with_direction(&self) -> (r: Vec<(Direction, &T)>)
        ensures
            r@.len() == 6,
            forall|i: int|
                0 <= i < 6 ==> (#[trigger] r@[i]).0 == all_directions()[i] && *r@[i].1 == self@[i],
    {
        let directions = Direction::items();
        let mut r: Vec<(Direction, &T)> = Vec::new();
        let mut i: usize = 0;
        while i < 6
            invariant
                i <= 6,
                directions@ == all_directions(),
                r@.len() == i,
                forall|j: int|
                    0 <= j < i ==> (#[trigger] r@[j]).0 == all_directions()[j] && *r@[j].1
                        == self@[j],
            decreases 6 - i,
        {
            let d = directions[i];
            proof {
                lemma_direction_index_bijective(d, d);
                assert(direction_index(all_directions()[i as int]) == i);
            }
            r.push((d, self.get(d)));
            i = i + 1;
        }
        r
    }
}

impl<T: Copy> PerDirection<T> {
    /// A value that holds `value` for every direction.
    pub fn splat(value: T) -> (r: Self)
        ensures
            r@ == Seq::new(6, |_i: int| value),
    {
        let r = PerDirection([value, value, value, value, value, value]);
        assert(r@ =~= Seq::new(6, |_i: int| value));
        r
    }
}

/// Per-direction block counts.
pub type CountPerDirection = PerDirection<u64>;

impl Default for PerDirection<u64> {
    fn default() -> (r: Self)
        ensures
            r@ == Seq::new(6, |_i: int| 0u64),
    {
        PerDirection::splat(0)
    }
}

/// Writing the value of one direction changes that direction's value only.
pub proof fn lemma_per_direction_write_then_read<T>(values: Seq<T>, written: Direction, read: Direction, value: T)
    requires
        values.len() == 6,
    ensures
        values.update(direction_index(written), value)[direction_index(read)] == (if read == written {
            value
        } else {
            values[direction_index(read)]
        }),
        values.update(direction_index(written), value).len() == 6,
{
}

/// Writing the six slots that `iter_mut` hands out, the `i`-th with `f(i)`, gives each
/// direction the value `f` of its index (the index that `into_index` returns and `get` reads).
pub proof fn lemma_iter_mut_slots<T>(slots: Seq<T>, f: spec_fn(int) -> T)
    requires
        slots.len() == 6,
        forall|i: int| 0 <= i < 6 ==> #[trigger] slots[i] == f(i),
    ensures
        forall|d: Direction| #[trigger] slots[direction_index(d)] == f(direction_index(d)),
{
    assert forall|d: Direction| #[trigger] slots[direction_index(d)] == f(direction_index(d)) by {
        assert(0 <= direction_index(d) < 6);
    }
}

} // verus!
