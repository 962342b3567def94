use vstd::prelude::*;

verus! {

/// The slots of the virtual methods of an app system that this library calls.
#[derive(Clone, Copy, PartialEq, Eq, Structural, Debug)]
pub enum AppSystemVTableIndicies {
    Connect,
    Disconnect,
    QueryInterface,
    Init,
    Shutdown,
    GetDependencies,
    GetTier,
    Reconnect,
    UnkFunc,
}

impl AppSystemVTableIndicies {
    /// The slot's position in the virtual table.
    pub fn index(&self) -> (r: isize)
        ensures
            r == match *self {
                AppSystemVTableIndicies::Connect => 0isize,
                AppSystemVTableIndicies::Disconnect => 1isize,
                AppSystemVTableIndicies::QueryInterface => 2isize,
                AppSystemVTableIndicies::Init => 3isize,
                AppSystemVTableIndicies::Shutdown => 4isize,
                AppSystemVTableIndicies::GetDependencies => 5isize,
                AppSystemVTableIndicies::GetTier => 6isize,
                AppSystemVTableIndicies::Reconnect => 7isize,
                AppSystemVTableIndicies::UnkFunc => 8isize,
            },
    {
        match self {
            AppSystemVTableIndicies::Connect => 0,
            AppSystemVTableIndicies::Disconnect => 1,
            AppSystemVTableIndicies::QueryInterface => 2,
            AppSystemVTableIndicies::Init => 3,
            AppSystemVTableIndicies::Shutdown => 4,
            AppSystemVTableIndicies::GetDependencies => 5,
            AppSystemVTableIndicies::GetTier => 6,
            AppSystemVTableIndicies::Reconnect => 7,
            AppSystemVTableIndicies::UnkFunc => 8,
        }
    }
}

} // verus!
