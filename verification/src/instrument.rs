//! The instrumentor: validates a raw module and rewrites it so that it pays
//! for its own execution in gas.

use vstd::prelude::*;
use parity_wasm::elements::Module;
use parity_wasm::elements::Error as ElementsError;
use pwasm_utils::rules::Set as RuleSet;
use wasmer_runtime_core::wasmparser::BinaryReaderError;
use crate::error::Error;

verus! {

/// A module in its structured form.
#[verifier::external_type_specification]
#[verifier::external_body]
pub struct ExModule(Module);

/// Why a module could not be read or written in its binary form.
#[verifier::external_type_specification]
#[verifier::external_body]
pub struct ExElementsError(ElementsError);

/// Why a module is not valid.
#[verifier::external_type_specification]
#[verifier::external_body]
pub struct ExBinaryReaderError(BinaryReaderError);

/// A table of gas costs.
#[verifier::external_type_specification]
#[verifier::external_body]
pub struct ExRuleSet(RuleSet);

/// What `wasmparser::validate` makes of `code` with the default settings.
pub uninterp spec fn validation(code: Seq<u8>) -> Result<(), BinaryReaderError>;

/// What `parity_wasm::elements::deserialize_buffer` reads out of `code`.
pub uninterp spec fn deserialization(code: Seq<u8>) -> Result<Module, ElementsError>;

/// The cost table that `pwasm_utils::rules::Set::new` makes of a cost per
/// instruction and no entry of its own.
pub uninterp spec fn flat_rules(regular: u32) -> RuleSet;

/// The cost table `rules` once `Set::with_grow_cost` has set its cost per
/// page of memory growth.
pub uninterp spec fn rules_with_grow_cost(rules: RuleSet, grow: u32) -> RuleSet;

/// What `pwasm_utils::inject_gas_counter` makes of `module` under `rules`:
/// the metered module, or the module as far as it was rewritten where it
/// holds an instruction the rules forbid or its blocks do not nest.
pub uninterp spec fn gas_injection(module: Module, rules: RuleSet) -> Result<Module, Module>;

/// What `parity_wasm::elements::serialize` writes for `module`.
pub uninterp spec fn serialization(module: Module) -> Result<Seq<u8>, ElementsError>;

/// Calls `wasmparser::validate` with no configuration, which tests whether
/// the bytes are a valid module. The result is named, not described.
#[verifier::external_body]
fn validate(code: &[u8]) -> (r: Result<(), BinaryReaderError>)
    ensures
        r == validation(code@),
{
    wasmer_runtime_core::wasmparser::validate(code, None)
}

/// Calls `parity_wasm::elements::deserialize_buffer` for a module, which
/// reads the whole buffer into a module or says why it cannot. The result
/// is named, not described.
#[verifier::external_body]
fn deserialize(code: &[u8]) -> (r: Result<Module, ElementsError>)
    ensures
        r == deserialization(code@),
{
    parity_wasm::elements::deserialize_buffer(code)
}

/// Calls `pwasm_utils::rules::Set::new` with the given cost per instruction
/// and an empty table of entries.
#[verifier::external_body]
fn rules_new(regular: u32) -> (rules: RuleSet)
    ensures
        rules == flat_rules(regular),
{
    RuleSet::new(regular, Default::default())
}

/// Calls `Set::with_grow_cost`, which sets the cost per page of memory
/// growth and hands the table back.
#[verifier::external_body]
fn with_grow_cost(rules: RuleSet, grow: u32) -> (r: RuleSet)
    ensures
        r == rules_with_grow_cost(rules, grow),
{
    rules.with_grow_cost(grow)
}

/// Calls `pwasm_utils::inject_gas_counter`, which puts a call of the
/// imported function `gas` of `env` before every metered block and every
/// memory growth. It shifts the indices of functions by one with plain
/// arithmetic, so the module has to be one that validation has bounded the
/// indices of. The result is named, not described.
#[verifier::external_body]
fn inject_gas_counter(module: Module, rules: &RuleSet) -> (r: Result<Module, Module>)
    requires
        read_from_valid_code(module),
    ensures
        r == gas_injection(module, *rules),
{
    pwasm_utils::inject_gas_counter(module, rules)
}

/// Calls `parity_wasm::elements::serialize`, which writes the module into a
/// fresh buffer. The result is named, not described.
#[verifier::external_body]
fn serialize(module: Module) -> (r: Result<Vec<u8>, ElementsError>)
    ensures
        match serialization(module) {
            Ok(bytes) => r matches Ok(v) && v@ == bytes,
            Err(e) => r matches Err(f) && f == e,
        },
{
    parity_wasm::elements::serialize(module)
}

/// Whether a structured module was read out of bytes that are a valid
/// module: every index in it then lies within the limits of the format.
pub open spec fn read_from_valid_code(module: Module) -> bool {
    exists|code: Seq<u8>| #[trigger]
        validation(code) is Ok && deserialization(code) == Ok::<Module, ElementsError>(module)
}

/// The gas every executed instruction costs.
pub const INSTRUCTION_COST: u32 = 1;

/// The gas every page of memory growth costs on top.
pub const GROW_COST: u32 = 1;

/// The cost model: flat, with no entry of its own.
pub open spec fn cost_model() -> RuleSet {
    rules_with_grow_cost(flat_rules(INSTRUCTION_COST), GROW_COST)
}

/// The status of a module after validation.
pub open spec fn validated_as(outcome: Result<(), BinaryReaderError>) -> Result<(), Error> {
    match outcome {
        Ok(_) => Ok(()),
        Err(_) => Err(Error::ValidateError),
    }
}

/// The status of a module after it was read into its structured form.
pub open spec fn deserialized_as(outcome: Result<Module, ElementsError>) -> Result<
    Module,
    Error,
> {
    match outcome {
        Ok(module) => Ok(module),
        Err(_) => Err(Error::DeserializationError),
    }
}

/// The status of a module after gas metering was put in.
pub open spec fn metered_as(outcome: Result<Module, Module>) -> Result<Module, Error> {
    match outcome {
        Ok(module) => Ok(module),
        Err(_) => Err(Error::GasCounterInjectionError),
    }
}

/// The status of a module after it was written back to bytes.
pub open spec fn serialized_as(outcome: Result<Seq<u8>, ElementsError>) -> Result<
    Seq<u8>,
    Error,
> {
    match outcome {
        Ok(bytes) => Ok(bytes),
        Err(_) => Err(Error::SerializationError),
    }
}

/// What instrumenting a structured module gives: its metered form in
/// bytes, or the step that failed.
pub open spec fn instrumented(module: Module) -> Result<Seq<u8>, Error> {
    match metered_as(gas_injection(module, cost_model())) {
        Ok(metered) => serialized_as(serialization(metered)),
        Err(e) => Err(e),
    }
}

/// What compiling raw bytes gives: the instrumented module in bytes, or the
/// first step that failed.
pub open spec fn compiled(code: Seq<u8>) -> Result<Seq<u8>, Error> {
    match validated_as(validation(code)) {
        Err(e) => Err(e),
        Ok(_) => match deserialized_as(deserialization(code)) {
            Err(e) => Err(e),
            Ok(module) => instrumented(module),
        },
    }
}

/// Whether `r` is `expected`, bytes taken by their view.
pub open spec fn gives(r: Result<Vec<u8>, Error>, expected: Result<Seq<u8>, Error>) -> bool {
    match expected {
        Ok(bytes) => r matches Ok(v) && v@ == bytes,
        Err(e) => r matches Err(f) && f == e,
    }
}

/// Maps the outcome of validation to a status: a module that is not valid
/// is a `ValidateError`.
pub fn validated(outcome: Result<(), BinaryReaderError>) -> (r: Result<(), Error>)
    ensures
        r == validated_as(outcome),
{
    match outcome {
        Ok(_) => Ok(()),
        Err(_) => Err(Error::ValidateError),
    }
}

/// Maps the outcome of reading a module to a status: bytes that cannot be
/// read are a `DeserializationError`.
pub fn deserialized(outcome: Result<Module, ElementsError>) -> (r: Result<
    Module,
    Error,
>)
    ensures
        r == deserialized_as(outcome),
{
    match outcome {
        Ok(module) => Ok(module),
        Err(_) => Err(Error::DeserializationError),
    }
}

/// Maps the outcome of metering to a status: a module that could not be
/// metered is a `GasCounterInjectionError`.
pub fn metered(outcome: Result<Module, Module>) -> (r: Result<Module, Error>)
    ensures
        r == metered_as(outcome),
{
    match outcome {
        Ok(module) => Ok(module),
        Err(_) => Err(Error::GasCounterInjectionError),
    }
}

/// Maps the outcome of writing a module to a status: a module that cannot
/// be written is a `SerializationError`.
pub fn serialized(outcome: Result<Vec<u8>, ElementsError>) -> (r: Result<
    Vec<u8>,
    Error,
>)
    ensures
        match outcome {
            Ok(bytes) => r == Ok::<Vec<u8>, Error>(bytes),
            Err(_) => r == Err::<Vec<u8>, Error>(Error::SerializationError),
        },
{
    match outcome {
        Ok(bytes) => Ok(bytes),
        Err(_) => Err(Error::SerializationError),
    }
}

/// Puts gas metering into a structured module under the flat cost model
/// and writes the result to bytes. The module is one that was read out of
/// valid bytes, as `compile` reads it.
pub fn instrument(module: Module) -> (r: Result<Vec<u8>, Error>)
    requires
        read_from_valid_code(module),
    ensures
        gives(r, instrumented(module)),
{
    let rules = with_grow_cost(rules_new(INSTRUCTION_COST), GROW_COST);
    match metered(inject_gas_counter(module, &rules)) {
        Ok(module) => serialized(serialize(module)),
        Err(e) => Err(e),
    }
}

/// Validates raw bytes as a module, reads them, puts gas metering in and
/// writes the metered module back to bytes. Each step has a failure of its
/// own, and the first one that fails decides the result.
pub fn compile(code: &[u8]) -> (r: Result<Vec<u8>, Error>)
    ensures
        gives(r, compiled(code@)),
        r matches Err(e) ==> e.is_compile_time(),
{
    match validated(validate(code)) {
        Err(e) => Err(e),
        Ok(_) => match deserialized(deserialize(code)) {
            Err(e) => Err(e),
            Ok(module) => instrument(module),
        },
    }
}

/// Compiling never ends in a status other than success or one of the four
/// of its steps.
pub proof fn lemma_compiled_status(code: Seq<u8>)
    ensures
        compiled(code) matches Err(e) ==> e.is_compile_time(),
{
}

} // verus!
