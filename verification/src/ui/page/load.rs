use vstd::prelude::*;

use crate::ui::storage::Storage;

verus! {

/// The page that lists the saved calculators to load one of them.
#[derive(Debug)]
pub struct Page {
    names: Vec<String>,
}

#[derive(Clone, Debug)]
pub enum Message {
    Load(String),
    Cancel,
}

#[derive(Debug)]
pub enum Action {
    Load(String),
    Cancel,
}

impl View for Page {
    type V = Seq<Seq<char>>;

    closed spec fn view(&self) -> Seq<Seq<char>> {
        self.names@.map_values(|n: String| n@)
    }
}

impl Page {
    /// The page listing the names of the calculators saved in `storage`, in their order.
    pub fn new<C: Clone>(storage: &Storage<C>) -> (r: Self)
        ensures
            r@ == storage.saved_names(),
    {
        Page { names: storage.saved_calculator_names() }
    }

    /// Handles a message: load the chosen calculator, or cancel.
    pub fn update(&mut self, message: Message) -> (r: Option<Action>)
        ensures
            final(self)@ == old(self)@,
            match message {
                Message::Load(n) => r matches Some(Action::Load(m)) && m@ == n@,
                Message::Cancel => r matches Some(Action::Cancel),
            },
    {
        match message {
            Message::Load(name) => Some(Action::Load(name)),
            Message::Cancel => Some(Action::Cancel),
        }
    }

    /// The listed names.
    pub fn names(&self) -> (r: &Vec<String>)
        ensures
            r@.map_values(|n: String| n@) == self@,
    {
        &self.names
    }
}

} // verus!
