use vstd::prelude::*;

verus! {

/// Errors met while looking up modules, exports and interfaces of a process.
#[derive(Debug)]
pub enum ProcessErrorKind {
    MemoryRead(u32),
    InvalidHandleValue,
    UnknownModule(String),
    InvalidBytesWritten(u32),
    UnknownExport(String),
    UnknownInterface(String),
}

/// Errors met while calling through an interface's virtual table.
#[derive(Debug)]
pub enum InterfaceErrorKind {
    InvalidVFuncIndex(isize),
}

/// Errors of plain standard values.
#[derive(Debug)]
pub enum StdErrorKind {
    NoneValue,
}

/// Any error of this library.
#[derive(Debug)]
pub enum Error {
    Process(ProcessErrorKind),
    Interface(InterfaceErrorKind),
    Standard(StdErrorKind),
}

impl From<ProcessErrorKind> for Error {
    fn from(e: ProcessErrorKind) -> (r: Error) {
        Error::Process(e)
    }
}

impl vstd::std_specs::convert::FromSpecImpl<ProcessErrorKind> for Error {
    open spec fn obeys_from_spec() -> bool {
        true
    }

    open spec fn from_spec(e: ProcessErrorKind) -> Error {
        Error::Process(e)
    }
}

impl From<InterfaceErrorKind> for Error {
    fn from(e: InterfaceErrorKind) -> (r: Error) {
        Error::Interface(e)
    }
}

impl vstd::std_specs::convert::FromSpecImpl<InterfaceErrorKind> for Error {
    open spec fn obeys_from_spec() -> bool {
        true
    }

    open spec fn from_spec(e: InterfaceErrorKind) -> Error {
        Error::Interface(e)
    }
}

impl From<StdErrorKind> for Error {
    fn from(e: StdErrorKind) -> (r: Error) {
        Error::Standard(e)
    }
}

impl vstd::std_specs::convert::FromSpecImpl<StdErrorKind> for Error {
    open spec fn obeys_from_spec() -> bool {
        true
    }

    open spec fn from_spec(e: StdErrorKind) -> Error {
        Error::Standard(e)
    }
}

/// Turns an absent value into an error.
pub trait OptionExt<T>: Sized {
    fn failure(self) -> core::result::Result<T, Error>;
}

impl<T> OptionExt<T> for Option<T> {
    /// `Some(v)` becomes `Ok(v)`; `None` becomes the error `StdErrorKind::NoneValue`.
    fn failure(self) -> (r: core::result::Result<T, Error>)
        ensures
            r == (match self {
                Some(v) => Ok(v),
                None => Err(Error::Standard(StdErrorKind::NoneValue)),
            }),
    {
        match self {
            Some(v) => Ok(v),
            None => Err(Error::Standard(StdErrorKind::NoneValue)),
        }
    }
}

} // verus!
