//! Language elements: entities that are specific to a given language.

use vstd::prelude::*;

verus! {

/// Language case.
#[derive(Clone, Copy, Debug, PartialEq, Eq, Structural)]
pub enum Case {
    Exists,
    NotDefined,
}

/// Stopword list: the words in the order given, duplicates kept.
#[derive(Clone, Debug, Default)]
pub struct Stopwords(pub Vec<String>);

impl View for Stopwords {
    type V = Seq<Seq<char>>;

    /// The words, each as its sequence of characters.
    open spec fn view(&self) -> Seq<Seq<char>> {
        self.0@.map_values(|w: String| w@)
    }
}

impl Stopwords {
    /// Whether the list holds no word.
    pub fn is_empty(&self) -> (r: bool)
        ensures
            r == (self@.len() == 0),
    {
        self.0.len() == 0
    }

    /// The number of words, duplicates counted.
    pub fn len(&self) -> (r: usize)
        ensures
            r as nat == self@.len(),
    {
        self.0.len()
    }
}

} // verus!
