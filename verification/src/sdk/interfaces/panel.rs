use vstd::prelude::*;

verus! {

/// The slots of the virtual methods of the GUI panel interface that this library calls.
#[derive(Clone, Copy, PartialEq, Eq, Structural, Debug)]
pub enum PanelVTableIndicies {
    GetName,
}

impl PanelVTableIndicies {
    /// The slot's position in the virtual table.
    pub fn index(&self) -> (r: isize)
        ensures
            r == match *self {
                PanelVTableIndicies::GetName => 36isize,
            },
    {
        match self {
            PanelVTableIndicies::GetName => 36,
        }
    }
}

} // verus!
