use vstd::prelude::*;

verus! {

/// The page that asks whether a saved calculator may be overwritten.
#[derive(Debug)]
pub struct Page {
    name: String,
}

#[derive(Clone, Debug)]
pub enum Message {
    Cancel,
    Overwrite,
}

#[derive(Debug)]
pub enum Action {
    Cancel,
    Overwrite(String),
}

impl View for Page {
    type V = Seq<char>;

    closed spec fn view(&self) -> Seq<char> {
        self.name@
    }
}

impl Page {
    /// The page for overwriting the calculator saved under `name`.
    pub fn new(name: String) -> (r: Self)
        ensures
            r@ == name@,
    {
        Page { name }
    }

    /// Handles a message: cancel, or overwrite the calculator saved under this page's name.
    pub fn update(&mut self, message: Message) -> (r: Action)
        ensures
            final(self)@ == old(self)@,
            match message {
                Message::Cancel => r is Cancel,
                Message::Overwrite => r matches Action::Overwrite(n) && n@ == old(self)@,
            },
    {
        match message {
            Message::Cancel => Action::Cancel,
            Message::Overwrite => Action::Overwrite(self.name.clone()),
        }
    }

    /// The name of the calculator that would be overwritten.
    pub fn name(&self) -> (r: &str)
        ensures
            r@ == self@,
    {
        self.name.as_str()
    }
}

} // verus!
