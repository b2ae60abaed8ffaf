use vstd::prelude::*;

verus! {

/// The characters of an optional text.
pub open spec fn text_of(value: Option<String>) -> Option<Seq<char>> {
    match value {
        Some(text) => Some(text@),
        None => None,
    }
}

/// Where the values of one session are kept, by key.
///
/// A store is shared and changes behind `&self`, so its model speaks of the
/// store's whole life. An implementation that does not give the model says
/// nothing of itself: both predicates then hold of everything.
pub trait SessionStore {
    /// Over the store's life, `value` is handed to it under `key`.
    open spec fn receives(&self, key: Seq<char>, value: Seq<char>) -> bool {
        true
    }

    /// Over the store's life, a read under `key` may give `value`
    /// (`None`: nothing is stored under `key`).
    open spec fn read_gives(&self, key: Seq<char>, value: Option<Seq<char>>) -> bool {
        true
    }

    /// Stores `value` under `key`.
    fn set_raw(&self, key: &str, value: String)
        ensures
            self.receives(key@, value@),
    ;

    /// The value stored under `key`, if any.
    fn get_raw(&self, key: &str) -> (value: Option<String>)
        ensures
            self.read_gives(key@, text_of(value)),
    ;
}

} // verus!
