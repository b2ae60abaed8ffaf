use vstd::prelude::*;

verus! {

/// A string key-value store that backs a session.
pub trait Store {
    /// The value stored under `key`, if any.
    fn get(&self, key: &str) -> Option<String>;

    /// Stores `value` under `key`.
    fn set(&self, key: &str, value: String) -> Result<(), ()>;
}

} // verus!
