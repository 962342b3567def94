use vstd::prelude::*;

verus! {

/// The slots of the virtual methods of the debug overlay that this library calls.
#[derive(Clone, Copy, PartialEq, Eq, Structural, Debug)]
pub enum VDebugOverlayVTableIndicies {
    WorldToScreen,
}

impl VDebugOverlayVTableIndicies {
    /// The slot's position in the virtual table.
    pub fn index(&self) -> (r: isize)
        ensures
            r == match *self {
                VDebugOverlayVTableIndicies::WorldToScreen => 13isize,
            },
    {
        match self {
            VDebugOverlayVTableIndicies::WorldToScreen => 13,
        }
    }
}

} // verus!
