use vstd::prelude::*;

verus! {

/// The slots of the virtual methods of the localizer that this library calls.
#[derive(Clone, Copy, PartialEq, Eq, Structural, Debug)]
pub enum LocalizeVTableIndicies {
    Find,
}

impl LocalizeVTableIndicies {
    /// The slot's position in the virtual table.
    pub fn index(&self) -> (r: isize)
        ensures
            r == match *self {
                LocalizeVTableIndicies::Find => 11isize,
            },
    {
        match self {
            LocalizeVTableIndicies::Find => 11,
        }
    }
}

} // verus!
