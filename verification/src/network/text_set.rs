//! Sets of texts.

use vstd::prelude::*;

verus! {

spec fn views(texts: Seq<String>) -> Seq<Seq<char>> {
    texts.map_values(|text: String| text@)
}

/// A set of texts.
pub struct TextSet {
    texts: Vec<String>,
}

impl View for TextSet {
    type V = Set<Seq<char>>;

    closed spec fn view(&self) -> Set<Seq<char>> {
        views(self.texts@).to_set()
    }
}

impl TextSet {
    /// No text is held twice.
    pub closed spec fn wf(&self) -> bool {
        views(self.texts@).no_duplicates()
    }

    /// The empty set.
    pub fn new() -> (set: Self)
        ensures
            set.wf(),
            set@ == Set::<Seq<char>>::empty(),
    {
        let set = TextSet { texts: Vec::new() };
        assert(set@ == Set::<Seq<char>>::empty());
        set
    }

    fn position(&self, text: &String) -> (position: Option<usize>)
        ensures
            match position {
                Some(i) => i < self.texts@.len() && self.texts@[i as int]@ == text@,
                None => !self@.contains(text@),
            },
    {
        for i in 0..self.texts.len()
            invariant
                forall|j: int| 0 <= j < i ==> self.texts@[j]@ != text@,
        {
            if self.texts[i] == *text {
                return Some(i);
            }
        }
        None
    }

    /// Whether the text is in the set.
    pub fn contains(&self, text: &String) -> (contained: bool)
        ensures
            contained == self@.contains(text@),
    {
        match self.position(text) {
            Some(i) => {
                assert(views(self.texts@)[i as int] == text@);
                true
            },
            None => false,
        }
    }

    /// Adds a text, and says whether it was not in the set before.
    pub fn insert(&mut self, text: String) -> (added: bool)
        requires
            old(self).wf(),
        ensures
            final(self).wf(),
            added == !old(self)@.contains(text@),
            final(self)@ == old(self)@.insert(text@),
    {
        if self.contains(&text) {
            assert(self@.insert(text@) == self@);
            return false;
        }
        let ghost before = views(self.texts@);
        self.texts.push(text);
        proof {
            let after = views(self.texts@);
            assert(after == before.push(text@));
            assert(after[after.len() - 1] == text@);
            assert forall|t: Seq<char>| before.contains(t) implies after.contains(t) by {
                let i = choose|i: int| 0 <= i < before.len() && before[i] == t;
                assert(after[i] == t);
            }
            assert(self@ == old(self)@.insert(text@));
        }
        true
    }

    /// Takes a text out, and says whether it was in the set before.
    pub fn remove(&mut self, text: &String) -> (removed: bool)
        requires
            old(self).wf(),
        ensures
            final(self).wf(),
            removed == old(self)@.contains(text@),
            final(self)@ == old(self)@.remove(text@),
    {
        match self.position(text) {
            Some(i) => {
                let ghost before = views(self.texts@);
                assert(before[i as int] == text@);
                self.texts.remove(i);
                proof {
                    let after = views(self.texts@);
                    assert(after == before.remove(i as int));
                    assert forall|t: Seq<char>| before.contains(t) && t != text@ implies after.contains(
                        t,
                    ) by {
                        let j = choose|j: int| 0 <= j < before.len() && before[j] == t;
                        assert(after[if j < i { j } else { j - 1 }] == t);
                    }
                    assert(self@ == old(self)@.remove(text@));
                }
                true
            },
            None => {
                assert(self@.remove(text@) == self@);
                false
            },
        }
    }
}

} // verus!
