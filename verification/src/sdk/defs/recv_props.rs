use vstd::prelude::*;

verus! {

/// The kinds of value that a networked property carries.
#[derive(Clone, Copy, PartialEq, Eq, Structural, Debug)]
pub enum SendPropType {
    Int,
    Float,
    Vec,
    VecXY,
    String,
    Array,
    DataTable,
    Int64,
}

impl SendPropType {
    /// The number the engine uses for the kind: its position in the declaration.
    pub fn to_i32(&self) -> (r: i32)
        ensures
            r == match *self {
                SendPropType::Int => 0i32,
                SendPropType::Float => 1i32,
                SendPropType::Vec => 2i32,
                SendPropType::VecXY => 3i32,
                SendPropType::String => 4i32,
                SendPropType::Array => 5i32,
                SendPropType::DataTable => 6i32,
                SendPropType::Int64 => 7i32,
            },
    {
        match self {
            SendPropType::Int => 0,
            SendPropType::Float => 1,
            SendPropType::Vec => 2,
            SendPropType::VecXY => 3,
            SendPropType::String => 4,
            SendPropType::Array => 5,
            SendPropType::DataTable => 6,
            SendPropType::Int64 => 7,
        }
    }
}

} // verus!
