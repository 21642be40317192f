//! A sandboxed execution engine for oracle scripts: an instrumentor that
//! makes a module pay for its execution in gas, a host bridge that mediates
//! every call out of the sandbox, and a controller that runs one phase of a
//! module and reports a single status.

use vstd::prelude::*;
use crate::env::Env;
use crate::error::Error;
use crate::instrument::{compile, compiled};
use crate::run::{code_exports_entry, run, Phase};
use crate::wat::{wat_error, wat_status, WatErrorKind};

pub mod env;
pub mod error;
pub mod gas;
pub mod instrument;
pub mod memory;
pub mod run;
pub mod vm;
pub mod wat;

verus! {

/// Compiles `input` and writes the instrumented module to `output`. On a
/// failure the status says which step failed and `output` stays as it was.
pub fn do_compile(input: &[u8], output: &mut Vec<u8>) -> (status: Error)
    ensures
        match compiled(input@) {
            Ok(bytes) => status == Error::NoError && final(output)@ == bytes,
            Err(e) => status == e && final(output)@ == old(output)@,
        },
        status == Error::NoError || status.is_compile_time(),
{
    match compile(input) {
        Ok(bytes) => {
            *output = bytes;
            Error::NoError
        },
        Err(e) => e,
    }
}

/// Runs one phase of the instrumented module `code` on behalf of `env`:
/// the prepare phase where `is_prepare` holds, the execute phase otherwise.
/// Where the bytes do not export the entry point of the phase, nothing is
/// run, and the status is `FunctionNotFoundError` unless the module cannot
/// even be compiled or bound; where they do, the status is never
/// `FunctionNotFoundError`.
pub fn do_run<E: Env + Send + 'static>(
    code: &[u8],
    gas_limit: u32,
    is_prepare: bool,
    env: E,
) -> (status: Error)
    ensures
        !code_exports_entry(code@, Phase::of(is_prepare).entry_name()) ==> status
            == Error::CompilationError || status == Error::FunctionNotFoundError,
        code_exports_entry(code@, Phase::of(is_prepare).entry_name()) ==> status
            != Error::FunctionNotFoundError,
        status == Error::NoError || status.is_run_time(),
{
    match run(code, gas_limit, is_prepare, env) {
        Ok(_) => Error::NoError,
        Err(e) => e,
    }
}

/// Reports a conversion from the text format: a converted module is written
/// to `output`, and a failure is reduced to its status and leaves `output`
/// as it was.
pub fn do_wat2wasm(converted: Result<Vec<u8>, WatErrorKind>, output: &mut Vec<u8>) -> (status:
    Error)
    ensures
        match converted {
            Ok(bytes) => status == Error::NoError && final(output)@ == bytes@,
            Err(kind) => status == wat_status(kind) && final(output)@ == old(output)@,
        },
{
    match converted {
        Ok(bytes) => {
            *output = bytes;
            Error::NoError
        },
        Err(kind) => wat_error(kind),
    }
}

} // verus!
