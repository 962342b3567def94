use vstd::prelude::*;

verus! {

/// The slots of the virtual methods of a client entity that this library calls.
#[derive(Clone, Copy, PartialEq, Eq, Structural, Debug)]
pub enum ClientEntityVTableIndicies {
    GetEntityId,
}

impl ClientEntityVTableIndicies {
    /// The slot's position in the virtual table.
    pub fn index(&self) -> (r: isize)
        ensures
            r == match *self {
                ClientEntityVTableIndicies::GetEntityId => 10isize,
            },
    {
        match self {
            ClientEntityVTableIndicies::GetEntityId => 10,
        }
    }
}

} // verus!
