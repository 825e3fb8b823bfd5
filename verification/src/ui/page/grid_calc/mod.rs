pub mod block_input;
pub mod directional_block_input;

use vstd::prelude::*;

use vstd::utf8::encode_utf8;

use self::block_input::BlockInputMessage;
use self::directional_block_input::DirectionalBlockInputMessage;
use crate::data::blocks::{BlockId, GridSize};
use crate::entries::{entries_insert, lemma_lookup_insert};
use crate::grid::counts::{count_in, directional_count_in, GridInput};
use crate::grid::direction::{direction_index, lemma_direction_index_bijective, Direction};
use crate::ui::data_bind::{typed_value, DataBind, DataBindMessage};

verus! {

/// Messages of the grid calculator page.
#[derive(Clone, Debug)]
pub enum Message {
    InputStorageChange(BlockInputMessage),
    InputThrustChange(DirectionalBlockInputMessage),
    InputPowerChange(BlockInputMessage),
    InputHydrogenChange(BlockInputMessage),
    SavePressed,
    SaveAsPressed,
    LoadPressed,
}

/// What the application is asked to do after the grid calculator page handled a message.
#[derive(Copy, Clone, PartialEq, Eq, Structural, Debug)]
pub enum Action {
    CalculatorModified,
    Save,
    SaveAs,
    Load,
}

/// The action that a message of the grid calculator page asks for: every input change modifies
/// the calculator; each button asks for its own action.
pub open spec fn action_for(message: Message) -> Action {
    match message {
        Message::SavePressed => Action::Save,
        Message::SaveAsPressed => Action::SaveAs,
        Message::LoadPressed => Action::Load,
        _ => Action::CalculatorModified,
    }
}

/// The action that `message` asks for.
pub fn action_of(message: &Message) -> (r: Action)
    ensures
        r == action_for(*message),
{
    match message {
        Message::InputStorageChange(_) => Action::CalculatorModified,
        Message::InputThrustChange(_) => Action::CalculatorModified,
        Message::InputPowerChange(_) => Action::CalculatorModified,
        Message::InputHydrogenChange(_) => Action::CalculatorModified,
        Message::SavePressed => Action::Save,
        Message::SaveAsPressed => Action::SaveAs,
        Message::LoadPressed => Action::Load,
    }
}

/// The count that typing `text` into a count field sets: count fields default to zero, so empty
/// text and text that is no decimal number give zero.
pub open spec fn typed_count(text: Seq<char>) -> u64 {
    typed_value(0, encode_utf8(text))
}

/// `new` is `old` with the count of block `id` set to `count`.
pub open spec fn count_set<O>(old: GridInput<O>, new: GridInput<O>, id: Seq<char>, count: u64) -> bool {
    &&& new.options == old.options
    &&& new.directional_blocks == old.directional_blocks
    &&& new.blocks@ == entries_insert(old.blocks@, id, count)
}

/// `new` is `old` with the count of thruster block `id` in direction `d` set to `count`.
pub open spec fn directional_count_set<O>(
    old: GridInput<O>,
    new: GridInput<O>,
    id: Seq<char>,
    d: Direction,
    count: u64,
) -> bool {
    &&& new.options == old.options
    &&& new.blocks == old.blocks
    &&& new.directional_blocks@.len() > 0
    &&& new.directional_blocks@ == entries_insert(
        old.directional_blocks@,
        id,
        new.directional_blocks@.last().1,
    )
    &&& new.directional_blocks@.last().1@ == directional_count_in(old.directional_blocks@, id).update(
        direction_index(d),
        count,
    )
}

/// What a message of the grid calculator page does to the grid: text typed into the count field
/// of a block sets the count of that block (for a thruster, in that direction); the buttons
/// change nothing.
pub open spec fn input_applied<O>(old: GridInput<O>, new: GridInput<O>, message: Message) -> bool {
    match message {
        Message::InputStorageChange(BlockInputMessage(id, _, DataBindMessage(t))) => count_set(
            old,
            new,
            id@,
            typed_count(t@),
        ),
        Message::InputPowerChange(BlockInputMessage(id, _, DataBindMessage(t))) => count_set(
            old,
            new,
            id@,
            typed_count(t@),
        ),
        Message::InputHydrogenChange(BlockInputMessage(id, _, DataBindMessage(t))) => count_set(
            old,
            new,
            id@,
            typed_count(t@),
        ),
        Message::InputThrustChange(DirectionalBlockInputMessage(_, id, d, DataBindMessage(t))) => directional_count_set(
            old,
            new,
            id@,
            d,
            typed_count(t@),
        ),
        _ => new == old,
    }
}

/// Text typed into the count field of a thruster block for direction `d` sets the count of that
/// block in direction `d`, and in no other: its counts in the other five directions, the counts
/// of every other thruster block, the counts of the other blocks and the options stay as they
/// were.
pub proof fn lemma_thrust_input_sets_its_direction<O>(
    old: GridInput<O>,
    new: GridInput<O>,
    size: GridSize,
    id: BlockId,
    d: Direction,
    text: String,
)
    requires
        input_applied(
            old,
            new,
            Message::InputThrustChange(DirectionalBlockInputMessage(size, id, d, DataBindMessage(text))),
        ),
    ensures
        directional_count_in(new.directional_blocks@, id@).len() == 6,
        directional_count_in(new.directional_blocks@, id@)[direction_index(d)] == typed_count(text@),
        forall|e: Direction|
            e != d ==> directional_count_in(new.directional_blocks@, id@)[direction_index(e)]
                == directional_count_in(old.directional_blocks@, id@)[direction_index(e)],
        forall|other: Seq<char>|
            other != id@ ==> directional_count_in(new.directional_blocks@, other)
                == directional_count_in(old.directional_blocks@, other),
        new.blocks == old.blocks,
        new.options == old.options,
{
    let before = directional_count_in(old.directional_blocks@, id@);
    let written = new.directional_blocks@.last().1;
    assert(before.len() == 6);
    assert forall|other: Seq<char>|
        other != id@ implies directional_count_in(new.directional_blocks@, other)
            == directional_count_in(old.directional_blocks@, other) by {
        lemma_lookup_insert(old.directional_blocks@, id@, written, other);
    }
    lemma_lookup_insert(old.directional_blocks@, id@, written, id@);
    assert forall|e: Direction|
        e != d implies directional_count_in(new.directional_blocks@, id@)[direction_index(e)]
            == before[direction_index(e)] by {
        lemma_direction_index_bijective(d, e);
    }
}

/// Text typed into the count field of a storage, power or hydrogen block sets the count of that
/// block, and of no other: the counts of the other blocks, the counts of the thruster blocks and
/// the options stay as they were.
pub proof fn lemma_block_input_sets_its_count<O>(
    old: GridInput<O>,
    new: GridInput<O>,
    message: Message,
    id: BlockId,
    size: GridSize,
    text: String,
)
    requires
        message == Message::InputStorageChange(BlockInputMessage(id, size, DataBindMessage(text)))
            || message == Message::InputPowerChange(BlockInputMessage(id, size, DataBindMessage(text)))
            || message == Message::InputHydrogenChange(
            BlockInputMessage(id, size, DataBindMessage(text)),
        ),
        input_applied(old, new, message),
    ensures
        count_in(new.blocks@, id@) == typed_count(text@),
        forall|other: Seq<char>|
            other != id@ ==> count_in(new.blocks@, other) == count_in(old.blocks@, other),
        new.directional_blocks == old.directional_blocks,
        new.options == old.options,
{
    assert forall|other: Seq<char>|
        other != id@ implies count_in(new.blocks@, other) == count_in(old.blocks@, other) by {
        lemma_lookup_insert(old.blocks@, id@, typed_count(text@), other);
    }
    lemma_lookup_insert(old.blocks@, id@, typed_count(text@), id@);
}

/// The count that the typed text of `message` sets, as a count field (default zero) reads it.
fn count_of(message: DataBindMessage) -> (r: u64)
    ensures
        r == typed_count(message.0@),
{
    let mut field = DataBind::new(0, String::new(), String::new());
    let mut count: u64 = 0;
    field.update(message, &mut count);
    count
}

/// Applies a message of the grid calculator page to the grid it edits.
pub fn apply_input<O>(input: &mut GridInput<O>, message: Message)
    ensures
        input_applied(*old(input), *final(input), message),
{
    match message {
        Message::InputStorageChange(BlockInputMessage(id, _, m)) => {
            let count = count_of(m);
            input.blocks.set(id, count);
        },
        Message::InputPowerChange(BlockInputMessage(id, _, m)) => {
            let count = count_of(m);
            input.blocks.set(id, count);
        },
        Message::InputHydrogenChange(BlockInputMessage(id, _, m)) => {
            let count = count_of(m);
            input.blocks.set(id, count);
        },
        Message::InputThrustChange(DirectionalBlockInputMessage(_, id, d, m)) => {
            let count = count_of(m);
            input.directional_blocks.set(id, d, count);
        },
        _ => {},
    }
}

} // verus!
