use vstd::prelude::*;

verus! {

/// The slots of the virtual methods of the engine client that this library calls.
#[derive(Clone, Copy, PartialEq, Eq, Structural, Debug)]
pub enum EngineVTableIndicies {
    ScreenSize,
    LocalPlayer,
    LastTimeStamp,
    MaxClients,
    IsInGame,
    IsConnected,
    ClientCommand,
    UnrestrictedClientCommand,
}

impl EngineVTableIndicies {
    /// The slot's position in the virtual table.
    pub fn index(&self) -> (r: isize)
        ensures
            r == match *self {
                EngineVTableIndicies::ScreenSize => 5isize,
                EngineVTableIndicies::LocalPlayer => 12isize,
                EngineVTableIndicies::LastTimeStamp => 14isize,
                EngineVTableIndicies::MaxClients => 20isize,
                EngineVTableIndicies::IsInGame => 26isize,
                EngineVTableIndicies::IsConnected => 27isize,
                EngineVTableIndicies::ClientCommand => 108isize,
                EngineVTableIndicies::UnrestrictedClientCommand => 114isize,
            },
    {
        match self {
            EngineVTableIndicies::ScreenSize => 5,
            EngineVTableIndicies::LocalPlayer => 12,
            EngineVTableIndicies::LastTimeStamp => 14,
            EngineVTableIndicies::MaxClients => 20,
            EngineVTableIndicies::IsInGame => 26,
            EngineVTableIndicies::IsConnected => 27,
            EngineVTableIndicies::ClientCommand => 108,
            EngineVTableIndicies::UnrestrictedClientCommand => 114,
        }
    }
}

} // verus!
