//! A named person with an age, and a one-line textual description of them.

use vstd::prelude::*;
use crate::text::spec_decimal;
use crate::text::u32_to_decimal;

verus! {

/// A named person with an age in years.
#[derive(Debug, Clone)]
pub struct Person {
    pub name: String,
    pub age: u32,
}

impl Person {
    /// Creates a person from a name and an age.
    pub fn new(name: String, age: u32) -> (p: Person)
        ensures
            p.name@ == name@,
            p.age == age,
    {
        Person { name, age }
    }

    /// A one-line description: the name, then the age in years, rendered in
    /// decimal.
    pub fn describe(&self) -> (r: String)
        ensures
            r@ == self.name@ + " is "@ + spec_decimal(self.age as nat) + " years old"@,
    {
        let mut s = self.name.clone();
        s.append(" is ");
        let digits = u32_to_decimal(self.age);
        s.append(digits.as_str());
        s.append(" years old");
        proof {
            assert(s@ =~= self.name@ + " is "@ + spec_decimal(self.age as nat)
                + " years old"@);
        }
        s
    }
}

} // verus!
