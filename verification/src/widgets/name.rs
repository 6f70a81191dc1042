//! A widget that greets a person by name.

use vstd::prelude::*;

verus! {

/// Define a widget by its data.
#[derive(Debug, PartialEq, Eq)]
pub struct Name {
    pub name: String,
}

/// Mathematical image of a [`Name`].
pub struct NameV {
    pub name: Seq<char>,
}

impl View for Name {
    type V = NameV;

    open spec fn view(&self) -> NameV {
        NameV { name: self.name@ }
    }
}

impl Clone for Name {
    fn clone(&self) -> (r: Self)
        ensures
            r == *self,
    {
        Name { name: self.name.clone() }
    }
}

impl Name {
    pub fn new(name: String) -> (r: Self)
        ensures
            r.name == name,
    {
        Name { name }
    }

    /// A name never changes on refresh.
    pub fn update(&mut self)
        ensures
            *final(self) == *old(self),
    {
    }
}

} // verus!
