//! Status codes reported to the host, and the fatal signals of the host bridge.

use vstd::prelude::*;

verus! {

/// The closed set of statuses an entry point reports. `NoError` is the
/// success sentinel; every failure is exactly one of the other values.
#[derive(Clone, Copy, Debug, PartialEq, Eq, Structural)]
pub enum Error {
    NoError,
    ParseError,
    WriteBinaryError,
    ResolveNamesError,
    ValidateError,
    DeserializationError,
    GasCounterInjectionError,
    SerializationError,
    CompilationError,
    FunctionNotFoundError,
    GasLimitExceedError,
    RunError,
    UnknownError,
}

/// A fatal signal raised by a host function. Raising one unwinds the whole
/// execution of the sandbox.
#[derive(Clone, Copy, Debug, PartialEq, Eq, Structural)]
pub enum VmError {
    /// A charge asked for more gas than was left.
    GasLimitExceeded,
    /// A `(pointer, length)` pair does not lie inside the sandbox memory.
    MemoryOutOfBound,
    /// More bytes were asked for than the source buffer holds.
    DataLengthOutOfBound,
}

impl Error {
    /// Whether this status is one that instrumenting a module can end in.
    pub open spec fn is_compile_time(self) -> bool {
        self == Error::ValidateError || self == Error::DeserializationError
            || self == Error::GasCounterInjectionError || self == Error::SerializationError
    }

    /// Whether this status is one that running a module can end in.
    pub open spec fn is_run_time(self) -> bool {
        self == Error::CompilationError || self == Error::FunctionNotFoundError
            || self == Error::GasLimitExceedError || self == Error::RunError
            || self == Error::UnknownError
    }
}

} // verus!
