use vstd::prelude::*;

verus! {

/// The page on which a calculator is given a name to be saved under.
#[derive(Debug)]
pub struct Page {
    name: String,
}

#[derive(Clone, Debug)]
pub enum Message {
    SetName(String),
    Save,
    Cancel,
}

#[derive(Debug)]
pub enum Action {
    Save(String),
    Cancel,
}

impl View for Page {
    type V = Seq<char>;

    closed spec fn view(&self) -> Seq<char> {
        self.name@
    }
}

impl Page {
    /// The page, with the name field filled with `name` or empty.
    pub fn new(name: Option<String>) -> (r: Self)
        ensures
            r@ == (match name {
                Some(n) => n@,
                None => Seq::<char>::empty(),
            }),
    {
        match name {
            Some(n) => Page { name: n },
            None => Page { name: String::new() },
        }
    }

    /// Handles a message: typing replaces the name, saving asks to save under a non-empty name
    /// (an empty name is not saved), cancelling asks to leave the page.
    pub fn update(&mut self, message: Message) -> (r: Option<Action>)
        ensures
            match message {
                Message::SetName(n) => final(self)@ == n@ && r is None,
                Message::Save => final(self)@ == old(self)@ && (if old(self)@.len() == 0 {
                    r is None
                } else {
                    r matches Some(Action::Save(n)) && n@ == old(self)@
                }),
                Message::Cancel => final(self)@ == old(self)@ && r matches Some(Action::Cancel),
            },
    {
        match message {
            Message::SetName(name) => {
                self.name = name;
                None
            },
            Message::Save => {
                if !self.name.as_str().is_empty() {
                    Some(Action::Save(self.name.clone()))
                } else {
                    None
                }
            },
            Message::Cancel => Some(Action::Cancel),
        }
    }

    /// The name in the name field.
    pub fn name(&self) -> (r: &str)
        ensures
            r@ == self@,
    {
        self.name.as_str()
    }
}

} // verus!
