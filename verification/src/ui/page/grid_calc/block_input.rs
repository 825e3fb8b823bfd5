use vstd::prelude::*;

use crate::data::blocks::{BlockId, GridSize};
use crate::ui::data_bind::DataBindMessage;

verus! {

/// Text typed into the count field of a block of the given grid size.
#[derive(Clone, Debug)]
pub struct BlockInputMessage(pub BlockId, pub GridSize, pub DataBindMessage);

} // verus!
