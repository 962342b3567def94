use vstd::prelude::*;

verus! {

/// The slots of the virtual methods of the client mode that this library calls.
#[derive(Clone, Copy, PartialEq, Eq, Structural, Debug)]
pub enum ClientModeVTableIndicies {
    ShouldDrawEntity,
}

impl ClientModeVTableIndicies {
    /// The slot's position in the virtual table.
    pub fn index(&self) -> (r: isize)
        ensures
            r == match *self {
                ClientModeVTableIndicies::ShouldDrawEntity => 14isize,
            },
    {
        match self {
            ClientModeVTableIndicies::ShouldDrawEntity => 14,
        }
    }
}

} // verus!
