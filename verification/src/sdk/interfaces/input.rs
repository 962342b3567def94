use vstd::prelude::*;

verus! {

/// The slots of the virtual methods of the input system that this library calls.
#[derive(Clone, Copy, PartialEq, Eq, Structural, Debug)]
pub enum InputVTableIndicies {
    GetUserCmd,
}

impl InputVTableIndicies {
    /// The slot's position in the virtual table.
    pub fn index(&self) -> (r: isize)
        ensures
            r == match *self {
                InputVTableIndicies::GetUserCmd => 8isize,
            },
    {
        match self {
            InputVTableIndicies::GetUserCmd => 8,
        }
    }
}

} // verus!
