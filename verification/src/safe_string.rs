use vstd::prelude::*;

verus! {

/// HTML-safe text: its holder vouches that it has been cleaned.
#[derive(Debug)]
pub struct SafeString {
    value: String,
}

impl View for SafeString {
    type V = Seq<char>;

    closed spec fn view(&self) -> Seq<char> {
        self.value@
    }
}

impl SafeString {
    /// Holds `value`, which needs no more cleaning.
    pub fn trusted(value: &str) -> (safe: SafeString)
        ensures
            safe@ == value@,
    {
        SafeString { value: value.to_owned() }
    }

    /// The text held.
    pub fn get(&self) -> (value: &String)
        ensures
            value@ == self@,
    {
        &self.value
    }
}

impl Clone for SafeString {
    fn clone(&self) -> (copy: Self)
        ensures
            copy == *self,
    {
        SafeString { value: self.value.clone() }
    }
}

} // verus!
