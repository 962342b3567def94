use vstd::prelude::*;

verus! {

/// The slots of the virtual methods of a game event that this library calls.
#[derive(Clone, Copy, PartialEq, Eq, Structural, Debug)]
pub enum GameEventVTableIndicies {
    GetName,
    IsReliable,
    IsLocal,
    IsEmpty,
    GetBool,
    GetInt,
    GetUInt64,
    GetFloat,
    GetString,
    GetWString,
    SetBool,
    SetInt,
    SetUInt64,
    SetFloat,
    SetString,
    SetWString,
}

impl GameEventVTableIndicies {
    /// The slot's position in the virtual table.
    pub fn index(&self) -> (r: isize)
        ensures
            r == match *self {
                GameEventVTableIndicies::GetName => 1isize,
                GameEventVTableIndicies::IsReliable => 2isize,
                GameEventVTableIndicies::IsLocal => 3isize,
                GameEventVTableIndicies::IsEmpty => 4isize,
                GameEventVTableIndicies::GetBool => 5isize,
                GameEventVTableIndicies::GetInt => 6isize,
                GameEventVTableIndicies::GetUInt64 => 7isize,
                GameEventVTableIndicies::GetFloat => 8isize,
                GameEventVTableIndicies::GetString => 9isize,
                GameEventVTableIndicies::GetWString => 10isize,
                GameEventVTableIndicies::SetBool => 11isize,
                GameEventVTableIndicies::SetInt => 12isize,
                GameEventVTableIndicies::SetUInt64 => 13isize,
                GameEventVTableIndicies::SetFloat => 14isize,
                GameEventVTableIndicies::SetString => 15isize,
                GameEventVTableIndicies::SetWString => 16isize,
            },
    {
        match self {
            GameEventVTableIndicies::GetName => 1,
            GameEventVTableIndicies::IsReliable => 2,
            GameEventVTableIndicies::IsLocal => 3,
            GameEventVTableIndicies::IsEmpty => 4,
            GameEventVTableIndicies::GetBool => 5,
            GameEventVTableIndicies::GetInt => 6,
            GameEventVTableIndicies::GetUInt64 => 7,
            GameEventVTableIndicies::GetFloat => 8,
            GameEventVTableIndicies::GetString => 9,
            GameEventVTableIndicies::GetWString => 10,
            GameEventVTableIndicies::SetBool => 11,
            GameEventVTableIndicies::SetInt => 12,
            GameEventVTableIndicies::SetUInt64 => 13,
            GameEventVTableIndicies::SetFloat => 14,
            GameEventVTableIndicies::SetString => 15,
            GameEventVTableIndicies::SetWString => 16,
        }
    }
}

} // verus!
