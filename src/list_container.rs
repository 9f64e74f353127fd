//! The editing rules of a list editor: a line of text that is added to the
//! list on request, and removal of one item by its position.
use vstd::prelude::*;

verus! {

/// What a list editor keeps between frames: the text being typed.
#[derive(Clone)]
pub struct ListContainerState {
    text: String,
}

impl Default for ListContainerState {
    fn default() -> (r: Self)
        ensures
            r.text() == Seq::<char>::empty(),
    {
        ListContainerState { text: String::new() }
    }
}

impl ListContainerState {
    pub closed spec fn text(&self) -> Seq<char> {
        self.text@
    }

    /// The text being typed, for the editor's input line to change.
    pub fn text_mut(&mut self) -> (r: &mut String)
        ensures
            old(self).text() == (*r)@,
            final(self).text() == (*final(r))@,
    {
        &mut self.text
    }

    /// Moves the typed text to the end of `items` and clears the line.
    pub fn submit(&mut self, items: &mut Vec<String>)
        ensures
            final(items)@.len() == old(items)@.len() + 1,
            forall|i: int| 0 <= i < old(items)@.len() ==> final(items)@[i] == old(items)@[i],
            final(items)@.last()@ == old(self).text(),
            final(self).text() == Seq::<char>::empty(),
    {
        let mut taken = String::new();
        std::mem::swap(&mut taken, &mut self.text);
        items.push(taken);
    }
}

/// Removes the item that the user asked to delete, if any.
pub fn remove_requested(items: &mut Vec<String>, requested: Option<usize>)
    requires
        requested matches Some(i) ==> i < old(items)@.len(),
    ensures
        requested is None ==> *final(items) == *old(items),
        requested matches Some(i) ==> final(items)@ == old(items)@.remove(i as int),
{
    match requested {
        None => {},
        Some(i) => {
            items.remove(i);
        },
    }
}

} // verus!
