use vstd::prelude::*;

verus! {

/// The slots of the virtual methods of a network channel that this library calls.
#[derive(Clone, Copy, PartialEq, Eq, Structural, Debug)]
pub enum INetChannelVTableIndicies {
    Transmit,
}

impl INetChannelVTableIndicies {
    /// The slot's position in the virtual table.
    pub fn index(&self) -> (r: isize)
        ensures
            r == match *self {
                INetChannelVTableIndicies::Transmit => 49isize,
            },
    {
        match self {
            INetChannelVTableIndicies::Transmit => 49,
        }
    }
}

} // verus!
