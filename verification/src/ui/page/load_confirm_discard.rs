use vstd::prelude::*;

verus! {

/// The page that asks whether unsaved changes may be discarded before loading.
#[derive(Debug)]
pub struct Page {}

#[derive(Clone, Debug)]
pub enum Message {
    Cancel,
    Discard,
}

#[derive(Debug)]
pub enum Action {
    Cancel,
    Discard,
}

impl Default for Page {
    fn default() -> (r: Self) {
        Page {}
    }
}

impl Page {
    pub fn new() -> (r: Self) {
        Page {}
    }

    /// Handles a message: each button asks for its own action.
    pub fn update(&mut self, message: Message) -> (r: Action)
        ensures
            match message {
                Message::Cancel => r is Cancel,
                Message::Discard => r is Discard,
            },
    {
        match message {
            Message::Cancel => Action::Cancel,
            Message::Discard => Action::Discard,
        }
    }
}

} // verus!
