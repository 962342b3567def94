use vstd::prelude::*;

verus! {

/// The slots of the virtual methods of the entity list that this library calls.
#[derive(Clone, Copy, PartialEq, Eq, Structural, Debug)]
pub enum EntityListVTableIndicies {
    GetClientEntityIndex,
    GetClientEntityHandle,
}

impl EntityListVTableIndicies {
    /// The slot's position in the virtual table.
    pub fn index(&self) -> (r: isize)
        ensures
            r == match *self {
                EntityListVTableIndicies::GetClientEntityIndex => 3isize,
                EntityListVTableIndicies::GetClientEntityHandle => 4isize,
            },
    {
        match self {
            EntityListVTableIndicies::GetClientEntityIndex => 3,
            EntityListVTableIndicies::GetClientEntityHandle => 4,
        }
    }
}

} // verus!
