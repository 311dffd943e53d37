//! Names under which classes are known to the engine.

use vstd::prelude::*;
use vstd::string::*;

verus! {

/// The name of a class. Two names are the same name exactly when their
/// backing strings hold the same characters.
#[derive(Debug)]
pub struct ClassName {
    backing: String,
}

impl View for ClassName {
    type V = Seq<char>;

    closed spec fn view(&self) -> Seq<char> {
        self.backing@
    }
}

impl ClassName {
    /// The name spelled by `string`.
    pub fn from_static(string: &str) -> (name: Self)
        ensures
            name@ == string@,
    {
        Self { backing: String::from_str(string) }
    }

    /// The characters of the name.
    pub fn as_str(&self) -> (s: &str)
        ensures
            s@ == self@,
    {
        self.backing.as_str()
    }

    /// Whether both are the same name.
    pub fn matches(&self, other: &ClassName) -> (same: bool)
        ensures
            same == (self@ == other@),
    {
        self.backing == other.backing
    }

    /// Whether the name is spelled by `string`.
    pub fn is(&self, string: &str) -> (same: bool)
        ensures
            same == (self@ == string@),
    {
        let other = String::from_str(string);
        self.backing == other
    }
}

impl Clone for ClassName {
    fn clone(&self) -> (copy: Self)
        ensures
            copy@ == self@,
    {
        Self { backing: self.backing.clone() }
    }
}

} // verus!
