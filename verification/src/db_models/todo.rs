use vstd::prelude::*;

verus! {

/// A to-do item.
#[derive(Debug, PartialEq, Eq, Clone)]
pub struct Todo {
    id: i32,
    text: String,
    done: bool,
}

impl View for Todo {
    type V = (i32, Seq<char>, bool);

    closed spec fn view(&self) -> (i32, Seq<char>, bool) {
        (self.id, self.text@, self.done)
    }
}

impl Todo {
    /// A to-do item with the given identifier, text and state.
    pub fn new(id: i32, text: String, done: bool) -> (t: Self)
        ensures
            t@ == (id, text@, done),
    {
        Self { id, text, done }
    }
}

} // verus!
