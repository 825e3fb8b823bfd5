use vstd::prelude::*;

use crate::data::blocks::{BlockId, GridSize};
use crate::grid::direction::Direction;
use crate::ui::data_bind::DataBindMessage;

verus! {

/// Text typed into the count field of a block of the given grid size facing the given direction.
#[derive(Clone, Debug)]
pub struct DirectionalBlockInputMessage(pub GridSize, pub BlockId, pub Direction, pub DataBindMessage);

} // verus!
