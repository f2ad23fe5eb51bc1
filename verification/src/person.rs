//! A person's name and address.
use vstd::prelude::*;

verus! {

/// What a [`Person`] is, as mathematical values.
pub struct PersonView {
    pub name: Seq<char>,
    pub address: Seq<char>,
}

/// A name and an address. Neither is checked: both may be empty.
#[derive(Debug, PartialEq, Eq)]
pub struct Person {
    name: String,
    address: String,
}

impl View for Person {
    type V = PersonView;

    closed spec fn view(&self) -> PersonView {
        PersonView { name: self.name@, address: self.address@ }
    }
}

impl Person {
    pub fn new(name: String, address: String) -> (person: Person)
        ensures
            person@ == (PersonView { name: name@, address: address@ }),
    {
        Person { name, address }
    }

    pub fn name(&self) -> (name: &str)
        ensures
            name@ == self@.name,
    {
        self.name.as_str()
    }

    pub fn address(&self) -> (address: &str)
        ensures
            address@ == self@.address,
    {
        self.address.as_str()
    }

    /// Replaces the name and leaves the address as it was.
    pub fn set_name(&mut self, name: String)
        ensures
            final(self)@ == (PersonView { name: name@, ..old(self)@ }),
    {
        self.name = name;
    }

    /// Replaces the address and leaves the name as it was.
    pub fn set_address(&mut self, address: String)
        ensures
            final(self)@ == (PersonView { address: address@, ..old(self)@ }),
    {
        self.address = address;
    }
}

} // verus!
