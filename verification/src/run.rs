//! The execution controller: binds a fresh host bridge to a sandbox, runs
//! the entry point of a phase and reduces whatever happens to one status.

use vstd::prelude::*;
use std::sync::Arc;
use std::sync::Mutex;
use wasmer_runtime_core::error::CompileError;
use wasmer_runtime_core::error::Error as InstantiationError;
use wasmer_runtime_core::error::ResolveError;
use wasmer_runtime_core::error::RuntimeError;
use wasmer_runtime_core::export::Export;
use wasmer_runtime_core::import::ImportObject;
use wasmer_runtime_core::import::IsExport;
use wasmer_runtime_core::import::LikeNamespace;
use wasmer_runtime_core::import::Namespace;
use wasmer_runtime_core::typed_func::Func;
use wasmer_runtime_core::typed_func::Wasm;
use wasmer_runtime_core::vm::Ctx;
use wasmer_runtime_core::Instance;
use crate::env::Env;
use crate::error::{Error, VmError};
use crate::vm::VMLogic;

verus! {

/// A lock around a value shared between the host functions of one sandbox.
#[verifier::external_type_specification]
#[verifier::external_body]
#[verifier::reject_recursive_types(T)]
pub struct ExMutex<T: ?Sized>(Mutex<T>);

/// A set of named exports that a module can import from.
#[verifier::external_type_specification]
#[verifier::external_body]
pub struct ExNamespace(Namespace);

/// Everything a module can import, by namespace.
#[verifier::external_type_specification]
#[verifier::external_body]
pub struct ExImportObject(ImportObject);

/// Something a module can import: here, a host function.
#[verifier::external_type_specification]
#[verifier::external_body]
pub struct ExExport(Export);

/// A module compiled to machine code.
#[verifier::external_type_specification]
#[verifier::external_body]
pub struct ExCompiledModule(wasmer_runtime_core::Module);

/// A sandbox: a compiled module bound to its imports.
#[verifier::external_type_specification]
#[verifier::external_body]
pub struct ExInstance(Instance);

/// Why a module could not be compiled to machine code.
#[verifier::external_type_specification]
#[verifier::external_body]
pub struct ExCompileError(CompileError);

/// Why a module could not be bound to its imports.
#[verifier::external_type_specification]
#[verifier::external_body]
pub struct ExInstantiationError(InstantiationError);

/// Why an export could not be resolved.
#[verifier::external_type_specification]
#[verifier::external_body]
pub struct ExResolveError(ResolveError);

/// Why the execution of an export stopped early.
#[verifier::external_type_specification]
#[verifier::external_body]
pub struct ExRuntimeError(RuntimeError);

/// The entry point of a phase, resolved in a sandbox: it holds the typed
/// function without arguments and results that `Exports::get` handed out.
#[verifier::external_body]
pub struct Entry<'a> {
    function: Func<'a, (), (), Wasm>,
}

/// Why a sandbox stopped early, as the sandbox tells causes apart.
#[derive(Clone, Copy, Debug, PartialEq, Eq, Structural)]
pub enum Trap {
    /// A host function raised a fatal signal.
    Host(VmError),
    /// A host function stopped with something that is no signal of the
    /// bridge.
    Unknown,
    /// The sandbox itself trapped while it ran the module.
    Invoke,
    /// A metering of the sandbox's own stopped the execution.
    Metering,
    /// The execution was suspended and its state handed out.
    InstanceImage,
}

/// An operation of the bridge that is offered to a module as a host
/// function.
#[derive(Clone, Copy, Debug, PartialEq, Eq, Structural)]
pub enum HostOperation {
    Gas,
    GetCalldataSize,
    ReadCalldata,
    SetReturnData,
    GetAskCount,
    GetMinCount,
    GetAnsCount,
    AskExternalData,
    GetExternalDataStatus,
    GetExternalDataSize,
    ReadExternalData,
}

/// The operation of the bridge that a host function runs when the sandbox
/// calls its export.
pub uninterp spec fn operation_of(export: Export) -> HostOperation;

/// The exports a namespace holds, by name.
pub uninterp spec fn namespace_exports(namespace: Namespace) -> Map<Seq<char>, Export>;

/// The namespaces registered with an import object, by name, each with the
/// exports it holds.
pub uninterp spec fn import_contents(imports: ImportObject) -> Map<Seq<char>, Map<Seq<char>, Export>>;

/// Whether the export table of a compiled module holds a function without
/// arguments and results under `name`.
pub uninterp spec fn exports_entry(module: wasmer_runtime_core::Module, name: Seq<char>) -> bool;

/// Whether the export table written in the bytes of a module holds a
/// function without arguments and results under `name`.
pub uninterp spec fn code_exports_entry(code: Seq<u8>, name: Seq<char>) -> bool;

/// Whether a sandbox exports a function without arguments and results
/// under `name`.
pub uninterp spec fn has_entry(instance: Instance, name: Seq<char>) -> bool;

/// The cause that `runtime_trap` reads out of a runtime error.
pub uninterp spec fn trap_of(err: RuntimeError) -> Trap;

/// Calls `Mutex::new`.
#[verifier::external_body]
fn mutex_new<E: Env>(vm: VMLogic<E>) -> (shared: Mutex<VMLogic<E>>) {
    Mutex::new(vm)
}

/// Calls `Namespace::new`, which makes an empty namespace.
#[verifier::external_body]
fn namespace_new() -> (namespace: Namespace)
    ensures
        namespace_exports(namespace) == (Map::<Seq<char>, Export>::empty()),
{
    Namespace::new()
}

/// Calls `LikeNamespace::maybe_insert` on a namespace, which stores the
/// export under the name, in place of what the name held before.
#[verifier::external_body]
fn namespace_insert(namespace: &mut Namespace, name: &str, export: Export)
    ensures
        namespace_exports(*final(namespace)) == namespace_exports(*old(namespace)).insert(
            name@,
            export,
        ),
{
    namespace.maybe_insert(name, export);
}

/// Makes a host function with `Func::new` and turns it into an export with
/// `IsExport::to_export`. Called by the sandbox, the function locks the
/// bridge and charges it for gas. The contract names the
/// operation that the function runs.
#[verifier::external_body]
fn gas_function<E: Env + Send + 'static>(vm: &Arc<Mutex<VMLogic<E>>>) -> (export: Export)
    ensures
        operation_of(export) == HostOperation::Gas,
{
    let vm = Arc::downgrade(vm);
    Func::new(
        move |_: &mut Ctx, gas: u32| vm.upgrade().unwrap().lock().unwrap().consume_gas(gas),
    ).to_export()
}

/// Makes a host function with `Func::new` and turns it into an export with
/// `IsExport::to_export`. Called by the sandbox, the function locks the
/// bridge and answers with the size of the input. The contract names the
/// operation that the function runs.
#[verifier::external_body]
fn get_calldata_size_function<E: Env + Send + 'static>(
    vm: &Arc<Mutex<VMLogic<E>>>,
) -> (export: Export)
    ensures
        operation_of(export) == HostOperation::GetCalldataSize,
{
    let vm = Arc::downgrade(vm);
    Func::new(
        move |_: &mut Ctx| vm.upgrade().unwrap().lock().unwrap().get_calldata_size(),
    ).to_export()
}

/// Makes a host function with `Func::new` and turns it into an export with
/// `IsExport::to_export`. Called by the sandbox, the function locks the
/// bridge and copies the input into the first memory of the sandbox, which
/// `Ctx::memory` hands out. The contract names the
/// operation that the function runs.
#[verifier::external_body]
fn read_calldata_function<E: Env + Send + 'static>(vm: &Arc<Mutex<VMLogic<E>>>) -> (export: Export)
    ensures
        operation_of(export) == HostOperation::ReadCalldata,
{
    let vm = Arc::downgrade(vm);
    Func::new(
        move |ctx: &mut Ctx, ptr: i64, len: i64|
            {
                let mut memory = ctx.memory(0).clone();
                vm.upgrade().unwrap().lock().unwrap().read_calldata(&mut memory, ptr, len)
            },
    ).to_export()
}

/// Makes a host function with `Func::new` and turns it into an export with
/// `IsExport::to_export`. Called by the sandbox, the function locks the
/// bridge and sets the output from the first memory of the sandbox, which
/// `Ctx::memory` hands out. The contract names the
/// operation that the function runs.
#[verifier::external_body]
fn set_return_data_function<E: Env + Send + 'static>(
    vm: &Arc<Mutex<VMLogic<E>>>,
) -> (export: Export)
    ensures
        operation_of(export) == HostOperation::SetReturnData,
{
    let vm = Arc::downgrade(vm);
    Func::new(
        move |ctx: &mut Ctx, ptr: i64, len: i64|
            {
                let memory = ctx.memory(0).clone();
                vm.upgrade().unwrap().lock().unwrap().set_return_data(&memory, ptr, len)
            },
    ).to_export()
}

/// Makes a host function with `Func::new` and turns it into an export with
/// `IsExport::to_export`. Called by the sandbox, the function locks the
/// bridge and answers with the number of validators asked. The contract
/// names the operation that the function runs.
#[verifier::external_body]
fn get_ask_count_function<E: Env + Send + 'static>(vm: &Arc<Mutex<VMLogic<E>>>) -> (export: Export)
    ensures
        operation_of(export) == HostOperation::GetAskCount,
{
    let vm = Arc::downgrade(vm);
    Func::new(
        move |_: &mut Ctx| vm.upgrade().unwrap().lock().unwrap().get_ask_count(),
    ).to_export()
}

/// Makes a host function with `Func::new` and turns it into an export with
/// `IsExport::to_export`. Called by the sandbox, the function locks the
/// bridge and answers with the number of answers needed. The contract names the operation
/// that the function runs.
#[verifier::external_body]
fn get_min_count_function<E: Env + Send + 'static>(vm: &Arc<Mutex<VMLogic<E>>>) -> (export: Export)
    ensures
        operation_of(export) == HostOperation::GetMinCount,
{
    let vm = Arc::downgrade(vm);
    Func::new(
        move |_: &mut Ctx| vm.upgrade().unwrap().lock().unwrap().get_min_count(),
    ).to_export()
}

/// Makes a host function with `Func::new` and turns it into an export with
/// `IsExport::to_export`. Called by the sandbox, the function locks the
/// bridge and answers with the number of answers received. The contract
/// names the operation that the function runs.
#[verifier::external_body]
fn get_ans_count_function<E: Env + Send + 'static>(vm: &Arc<Mutex<VMLogic<E>>>) -> (export: Export)
    ensures
        operation_of(export) == HostOperation::GetAnsCount,
{
    let vm = Arc::downgrade(vm);
    Func::new(
        move |_: &mut Ctx| vm.upgrade().unwrap().lock().unwrap().get_ans_count(),
    ).to_export()
}

/// Makes a host function with `Func::new` and turns it into an export with
/// `IsExport::to_export`. Called by the sandbox, the function locks the
/// bridge and registers a request whose payload lies in the first memory of
/// the sandbox, which `Ctx::memory` hands out. The contract names the
/// operation that the function runs.
#[verifier::external_body]
fn ask_external_data_function<E: Env + Send + 'static>(
    vm: &Arc<Mutex<VMLogic<E>>>,
) -> (export: Export)
    ensures
        operation_of(export) == HostOperation::AskExternalData,
{
    let vm = Arc::downgrade(vm);
    Func::new(
        move |ctx: &mut Ctx, eid: i64, did: i64, ptr: i64, len: i64|
            {
                let memory = ctx.memory(0).clone();
                let vm = vm.upgrade().unwrap();
                let mut vm = vm.lock().unwrap();
                vm.ask_external_data(&memory, eid, did, ptr, len)
            },
    ).to_export()
}

/// Makes a host function with `Func::new` and turns it into an export with
/// `IsExport::to_export`. Called by the sandbox, the function locks the
/// bridge and answers with the status of external data. The contract names the operation
/// that the function runs.
#[verifier::external_body]
fn get_external_data_status_function<E: Env + Send + 'static>(
    vm: &Arc<Mutex<VMLogic<E>>>,
) -> (export: Export)
    ensures
        operation_of(export) == HostOperation::GetExternalDataStatus,
{
    let vm = Arc::downgrade(vm);
    Func::new(
        move |_: &mut Ctx, eid: i64, vid: i64|
            vm.upgrade().unwrap().lock().unwrap().get_external_data_status(eid, vid),
    ).to_export()
}

/// Makes a host function with `Func::new` and turns it into an export with
/// `IsExport::to_export`. Called by the sandbox, the function locks the
/// bridge and answers with the size of external data. The contract names the operation
/// that the function runs.
#[verifier::external_body]
fn get_external_data_size_function<E: Env + Send + 'static>(
    vm: &Arc<Mutex<VMLogic<E>>>,
) -> (export: Export)
    ensures
        operation_of(export) == HostOperation::GetExternalDataSize,
{
    let vm = Arc::downgrade(vm);
    Func::new(
        move |_: &mut Ctx, eid: i64, vid: i64|
            vm.upgrade().unwrap().lock().unwrap().get_external_data_size(eid, vid),
    ).to_export()
}

/// Makes a host function with `Func::new` and turns it into an export with
/// `IsExport::to_export`. Called by the sandbox, the function locks the
/// bridge and copies external data into the first memory of the sandbox,
/// which `Ctx::memory` hands out. The contract names the
/// operation that the function runs.
#[verifier::external_body]
fn read_external_data_function<E: Env + Send + 'static>(
    vm: &Arc<Mutex<VMLogic<E>>>,
) -> (export: Export)
    ensures
        operation_of(export) == HostOperation::ReadExternalData,
{
    let vm = Arc::downgrade(vm);
    Func::new(
        move |ctx: &mut Ctx, eid: i64, vid: i64, ptr: i64, len: i64|
            {
                let mut memory = ctx.memory(0).clone();
                let vm = vm.upgrade().unwrap();
                let vm = vm.lock().unwrap();
                vm.read_external_data(&mut memory, eid, vid, ptr, len)
            },
    ).to_export()
}

/// Calls `ImportObject::new`, which makes an import object without any
/// namespace.
#[verifier::external_body]
fn import_object_new() -> (imports: ImportObject)
    ensures
        import_contents(imports) == (Map::<Seq<char>, Map<Seq<char>, Export>>::empty()),
{
    ImportObject::new()
}

/// Calls `ImportObject::register`, which puts the namespace, with the
/// exports it holds, under the name, in place of what the name held before.
#[verifier::external_body]
fn import_register(imports: &mut ImportObject, name: &str, namespace: Namespace)
    ensures
        import_contents(*final(imports)) == import_contents(*old(imports)).insert(
            name@,
            namespace_exports(namespace),
        ),
{
    imports.register(name, namespace);
}

/// Calls `wasmer_runtime_core::compile_with` with a fresh Cranelift
/// compiler. Nothing is said of whether it succeeds nor of the machine code
/// it makes; the export table of the module it makes is the one written in
/// the bytes.
#[verifier::external_body]
fn compile_module(code: &[u8]) -> (r: Result<wasmer_runtime_core::Module, CompileError>)
    ensures
        r matches Ok(module) ==> forall|name: Seq<char>| #[trigger]
            exports_entry(module, name) == code_exports_entry(code@, name),
{
    wasmer_runtime_core::compile_with(code, &wasmer_clif_backend::CraneliftCompiler::new())
}

/// Calls `Module::instantiate`, which binds the module to its imports and
/// runs its start function. Nothing is said of whether it succeeds; the
/// sandbox it makes exports what the export table of the module holds.
#[verifier::external_body]
fn instantiate_module(module: &wasmer_runtime_core::Module, imports: &ImportObject) -> (r: Result<
    Instance,
    InstantiationError,
>)
    ensures
        r matches Ok(instance) ==> forall|name: Seq<char>| #[trigger]
            has_entry(instance, name) == exports_entry(*module, name),
{
    module.instantiate(imports)
}

/// Calls `Exports::get` for a function without arguments and results. It
/// succeeds exactly where the sandbox exports such a function under the
/// name.
#[verifier::external_body]
fn resolve_entry<'a>(instance: &'a Instance, name: &str) -> (r: Result<Entry<'a>, ResolveError>)
    ensures
        r is Ok <==> has_entry(*instance, name@),
{
    instance.exports.get(name).map(|function| Entry { function })
}

/// Calls `Func::call` without arguments. The sandbox calls back into the
/// host functions while it runs; nothing is said of the outcome.
#[verifier::external_body]
fn call_entry<'a>(entry: &Entry<'a>) -> (r: Result<(), RuntimeError>) {
    entry.function.call()
}

/// Tells the variants of `RuntimeError` apart, one cause for each, with
/// `downcast_ref` for what a host function stopped with: that is the signal
/// it raised, or unknown where it is no signal of the bridge.
#[verifier::external_body]
fn runtime_trap(err: &RuntimeError) -> (trap: Trap)
    ensures
        trap == trap_of(*err),
{
    match err {
        RuntimeError::User(payload) => match payload.downcast_ref::<VmError>() {
            Some(signal) => Trap::Host(*signal),
            None => Trap::Unknown,
        },
        RuntimeError::InvokeError(_) => Trap::Invoke,
        RuntimeError::Metering(_) => Trap::Metering,
        RuntimeError::InstanceImage(_) => Trap::InstanceImage,
    }
}

/// One of the two entry points of a module: `prepare` builds a request
/// for data, `execute` aggregates a result.
#[derive(Clone, Copy, Debug, PartialEq, Eq, Structural)]
pub enum Phase {
    Prepare,
    Execute,
}

impl Phase {
    /// The phase that the flag of an entry point stands for.
    pub open spec fn of(is_prepare: bool) -> Phase {
        if is_prepare {
            Phase::Prepare
        } else {
            Phase::Execute
        }
    }

    /// The name of the export that the phase selects.
    pub open spec fn entry_name(self) -> Seq<char> {
        match self {
            Phase::Prepare => "prepare"@,
            Phase::Execute => "execute"@,
        }
    }

    /// The phase that the flag of an entry point stands for: the prepare
    /// phase where it holds, the execute phase otherwise.
    pub fn select(is_prepare: bool) -> (phase: Phase)
        ensures
            phase == Phase::of(is_prepare),
    {
        if is_prepare {
            Phase::Prepare
        } else {
            Phase::Execute
        }
    }

    /// The name of the export that the phase selects.
    pub fn entry_point(self) -> (name: &'static str)
        ensures
            name@ == self.entry_name(),
    {
        match self {
            Phase::Prepare => "prepare",
            Phase::Execute => "execute",
        }
    }
}

/// The status that a cause of an early stop is reported as.
pub open spec fn trap_status(trap: Trap) -> Error {
    match trap {
        Trap::Host(VmError::GasLimitExceeded) => Error::GasLimitExceedError,
        Trap::Host(_) => Error::RunError,
        Trap::Invoke => Error::RunError,
        Trap::Metering => Error::RunError,
        Trap::InstanceImage => Error::RunError,
        Trap::Unknown => Error::UnknownError,
    }
}

/// Reduces the cause of an early stop to a status: running out of gas is
/// `GasLimitExceedError`; any other signal of the bridge, a trap of the
/// sandbox, its own metering and a suspended execution are `RunError`; what
/// a host function stopped with that is no signal of the bridge is
/// `UnknownError`.
pub fn classify(trap: Trap) -> (status: Error)
    ensures
        status == trap_status(trap),
        status == Error::GasLimitExceedError || status == Error::RunError || status
            == Error::UnknownError,
{
    match trap {
        Trap::Host(VmError::GasLimitExceeded) => Error::GasLimitExceedError,
        Trap::Host(_) => Error::RunError,
        Trap::Invoke => Error::RunError,
        Trap::Metering => Error::RunError,
        Trap::InstanceImage => Error::RunError,
        Trap::Unknown => Error::UnknownError,
    }
}

/// The result of an execution that returned `outcome`.
pub open spec fn finished_as(outcome: Result<(), RuntimeError>) -> Result<(), Error> {
    match outcome {
        Ok(_) => Ok(()),
        Err(err) => Err(trap_status(trap_of(err))),
    }
}

/// Reduces what the call of an entry point returned to a result: normal
/// completion is success, and an early stop is the status of its cause.
pub fn finish(outcome: Result<(), RuntimeError>) -> (r: Result<(), Error>)
    ensures
        r == finished_as(outcome),
{
    match outcome {
        Ok(_) => Ok(()),
        Err(err) => Err(classify(runtime_trap(&err))),
    }
}

impl HostOperation {
    /// The name under which the operation is offered to a module.
    pub open spec fn name(self) -> Seq<char> {
        match self {
            HostOperation::Gas => "gas"@,
            HostOperation::GetCalldataSize => "get_calldata_size"@,
            HostOperation::ReadCalldata => "read_calldata"@,
            HostOperation::SetReturnData => "set_return_data"@,
            HostOperation::GetAskCount => "get_ask_count"@,
            HostOperation::GetMinCount => "get_min_count"@,
            HostOperation::GetAnsCount => "get_ans_count"@,
            HostOperation::AskExternalData => "ask_external_data"@,
            HostOperation::GetExternalDataStatus => "get_external_data_status"@,
            HostOperation::GetExternalDataSize => "get_external_data_size"@,
            HostOperation::ReadExternalData => "read_external_data"@,
        }
    }
}

/// The names under which the host functions are offered to a module.
pub open spec fn host_function_names() -> Set<Seq<char>> {
    set![
        "gas"@,
        "get_calldata_size"@,
        "read_calldata"@,
        "set_return_data"@,
        "get_ask_count"@,
        "get_min_count"@,
        "get_ans_count"@,
        "ask_external_data"@,
        "get_external_data_status"@,
        "get_external_data_size"@,
        "read_external_data"@,
    ]
}

/// Whether `exports` offers every operation of the bridge, and nothing
/// else: each operation stands under its own name, and no other name is
/// held.
pub open spec fn wired(exports: Map<Seq<char>, Export>) -> bool {
    &&& exports.dom() == host_function_names()
    &&& forall|operation: HostOperation|
        operation_of(#[trigger] exports[operation.name()]) == operation
}

/// No two operations are offered under the same name.
pub proof fn lemma_names_differ(a: HostOperation, b: HostOperation)
    ensures
        a != b ==> a.name() != b.name(),
{
    reveal_strlit("gas");
    reveal_strlit("get_calldata_size");
    reveal_strlit("read_calldata");
    reveal_strlit("set_return_data");
    reveal_strlit("get_ask_count");
    reveal_strlit("get_min_count");
    reveal_strlit("get_ans_count");
    reveal_strlit("ask_external_data");
    reveal_strlit("get_external_data_status");
    reveal_strlit("get_external_data_size");
    reveal_strlit("read_external_data");
    if a != b && a.name().len() == b.name().len() {
        assert(a.name()[0] != b.name()[0] || a.name()[4] != b.name()[4] || a.name()[5]
            != b.name()[5]);
    }
}

/// Wires every operation of the bridge as a host function of its own,
/// under its own name. The host functions hold the bridge weakly: the
/// bridge goes when its owner lets go of it, whatever the sandbox keeps.
pub fn host_functions<E: Env + Send + 'static>(vm: &Arc<Mutex<VMLogic<E>>>) -> (namespace:
    Namespace)
    ensures
        wired(namespace_exports(namespace)),
{
    let mut namespace = namespace_new();
    namespace_insert(&mut namespace, "gas", gas_function(vm));
    namespace_insert(&mut namespace, "get_calldata_size", get_calldata_size_function(vm));
    namespace_insert(&mut namespace, "read_calldata", read_calldata_function(vm));
    namespace_insert(&mut namespace, "set_return_data", set_return_data_function(vm));
    namespace_insert(&mut namespace, "get_ask_count", get_ask_count_function(vm));
    namespace_insert(&mut namespace, "get_min_count", get_min_count_function(vm));
    namespace_insert(&mut namespace, "get_ans_count", get_ans_count_function(vm));
    namespace_insert(&mut namespace, "ask_external_data", ask_external_data_function(vm));
    namespace_insert(
        &mut namespace,
        "get_external_data_status",
        get_external_data_status_function(vm),
    );
    namespace_insert(&mut namespace, "get_external_data_size", get_external_data_size_function(vm));
    namespace_insert(&mut namespace, "read_external_data", read_external_data_function(vm));
    proof {
        let exports = namespace_exports(namespace);
        assert(exports.dom() =~= host_function_names());
        assert forall|operation: HostOperation|
            operation_of(#[trigger] exports[operation.name()]) == operation by {
            lemma_names_differ(operation, HostOperation::Gas);
            lemma_names_differ(operation, HostOperation::GetCalldataSize);
            lemma_names_differ(operation, HostOperation::ReadCalldata);
            lemma_names_differ(operation, HostOperation::SetReturnData);
            lemma_names_differ(operation, HostOperation::GetAskCount);
            lemma_names_differ(operation, HostOperation::GetMinCount);
            lemma_names_differ(operation, HostOperation::GetAnsCount);
            lemma_names_differ(operation, HostOperation::AskExternalData);
            lemma_names_differ(operation, HostOperation::GetExternalDataStatus);
            lemma_names_differ(operation, HostOperation::GetExternalDataSize);
            lemma_names_differ(operation, HostOperation::ReadExternalData);
        }
    }
    namespace
}

/// The imports of a sandbox bound to `vm`: the namespace `env`, holding
/// every operation of the bridge under its own name, and no other
/// namespace.
pub fn host_imports<E: Env + Send + 'static>(vm: &Arc<Mutex<VMLogic<E>>>) -> (imports:
    ImportObject)
    ensures
        import_contents(imports).dom() == set!["env"@],
        wired(import_contents(imports)["env"@]),
{
    let namespace = host_functions(vm);
    let mut imports = import_object_new();
    import_register(&mut imports, "env", namespace);
    assert(import_contents(imports).dom() =~= set!["env"@]);
    imports
}

/// Reduces what binding a module to its imports gave: a module that
/// cannot be bound is a `CompilationError`.
pub fn bound(outcome: Result<Instance, InstantiationError>) -> (r: Result<Instance, Error>)
    ensures
        match outcome {
            Ok(instance) => r == Ok::<Instance, Error>(instance),
            Err(_) => r == Err::<Instance, Error>(Error::CompilationError),
        },
{
    match outcome {
        Ok(instance) => Ok(instance),
        Err(_) => Err(Error::CompilationError),
    }
}

/// Reduces what looking up an entry point gave: an entry point that the
/// sandbox does not export is a `FunctionNotFoundError`.
pub fn resolved<'a>(outcome: Result<Entry<'a>, ResolveError>) -> (r: Result<Entry<'a>, Error>)
    ensures
        match outcome {
            Ok(entry) => r == Ok::<Entry<'a>, Error>(entry),
            Err(_) => r == Err::<Entry<'a>, Error>(Error::FunctionNotFoundError),
        },
{
    match outcome {
        Ok(entry) => Ok(entry),
        Err(_) => Err(Error::FunctionNotFoundError),
    }
}

/// Makes a sandbox of what compiling an instrumented module gave and the
/// given imports. A module that could not be compiled, or that cannot be
/// bound to the imports, is a `CompilationError`. The sandbox exports what
/// the export table of the module holds.
pub fn instantiate(
    compiled: Result<wasmer_runtime_core::Module, CompileError>,
    imports: &ImportObject,
) -> (r: Result<Instance, Error>)
    ensures
        compiled is Err ==> r is Err,
        r matches Err(e) ==> e == Error::CompilationError,
        compiled matches Ok(module) ==> (r matches Ok(instance) ==> forall|name: Seq<char>|
            #[trigger] has_entry(instance, name) == exports_entry(module, name)),
{
    match compiled {
        Ok(module) => bound(instantiate_module(&module, imports)),
        Err(_) => Err(Error::CompilationError),
    }
}

/// Invokes the entry point of a phase in a sandbox. Only the export that
/// the phase selects is looked up: where the sandbox does not export it,
/// the result is `FunctionNotFoundError` and nothing is run; where it does,
/// the result is that of the execution.
pub fn invoke(instance: &Instance, phase: Phase) -> (r: Result<(), Error>)
    ensures
        !has_entry(*instance, phase.entry_name()) ==> r == Err::<(), Error>(
            Error::FunctionNotFoundError,
        ),
        has_entry(*instance, phase.entry_name()) ==> (r matches Err(e) ==> e
            == Error::GasLimitExceedError || e == Error::RunError || e == Error::UnknownError),
{
    match resolved(resolve_entry(instance, phase.entry_point())) {
        Ok(entry) => finish(call_entry(&entry)),
        Err(e) => Err(e),
    }
}

/// Runs one phase of what compiling an instrumented module gave, in a
/// fresh sandbox bound to the bridge `vm`. A module that could not be
/// compiled is a `CompilationError`. The flag selects the one export that
/// is looked up: `prepare` where it holds, `execute` otherwise. Where the
/// module does not export it, nothing is run, and the result is
/// `FunctionNotFoundError` unless the module cannot even be bound; where it
/// does, the result is never `FunctionNotFoundError`. Whatever the sandbox
/// did to the bridge and to its environment before a failure stays done.
pub fn run_with<E: Env + Send + 'static>(
    compiled: Result<wasmer_runtime_core::Module, CompileError>,
    is_prepare: bool,
    vm: &Arc<Mutex<VMLogic<E>>>,
) -> (r: Result<(), Error>)
    ensures
        compiled is Err ==> r == Err::<(), Error>(Error::CompilationError),
        compiled matches Ok(module) ==> (!exports_entry(
            module,
            Phase::of(is_prepare).entry_name(),
        ) ==> r == Err::<(), Error>(Error::CompilationError) || r == Err::<(), Error>(
            Error::FunctionNotFoundError,
        )),
        compiled matches Ok(module) ==> (exports_entry(module, Phase::of(is_prepare).entry_name())
            ==> r != Err::<(), Error>(Error::FunctionNotFoundError)),
        r matches Err(e) ==> e.is_run_time(),
{
    let imports = host_imports(vm);
    let instance = match instantiate(compiled, &imports) {
        Ok(instance) => instance,
        Err(e) => return Err(e),
    };
    invoke(&instance, Phase::select(is_prepare))
}

/// Runs one phase of the instrumented module `code` on behalf of `env`
/// with the given gas limit: a fresh bridge and a fresh sandbox are made
/// for this one execution. The flag selects the one export that is looked
/// up: `prepare` where it holds, `execute` otherwise. Where the bytes do
/// not export it, nothing is run, and the result is
/// `FunctionNotFoundError` unless the module cannot even be compiled or
/// bound; where they do, the result is never `FunctionNotFoundError`.
pub fn run<E: Env + Send + 'static>(code: &[u8], gas_limit: u32, is_prepare: bool, env: E) -> (r:
    Result<(), Error>)
    ensures
        !code_exports_entry(code@, Phase::of(is_prepare).entry_name()) ==> r == Err::<(), Error>(
            Error::CompilationError,
        ) || r == Err::<(), Error>(Error::FunctionNotFoundError),
        code_exports_entry(code@, Phase::of(is_prepare).entry_name()) ==> r != Err::<(), Error>(
            Error::FunctionNotFoundError,
        ),
        r matches Err(e) ==> e.is_run_time(),
{
    let vm = Arc::new(mutex_new(VMLogic::new(env, gas_limit)));
    run_with(compile_module(code), is_prepare, &vm)
}

/// Phase selection is exact: the flag that holds selects `prepare` and
/// nothing else, the flag that does not hold selects `execute` and nothing
/// else, and the two names differ.
pub proof fn lemma_phase_selection()
    ensures
        Phase::of(true).entry_name() == "prepare"@,
        Phase::of(false).entry_name() == "execute"@,
        Phase::of(true).entry_name() != Phase::of(false).entry_name(),
{
    reveal_strlit("prepare");
    reveal_strlit("execute");
    assert("prepare"@[0] != "execute"@[0]);
}

/// An execution ends in `GasLimitExceedError` exactly where it was stopped
/// by the gas signal of the bridge.
pub proof fn lemma_gas_exhaustion_status(trap: Trap)
    ensures
        trap_status(trap) == Error::GasLimitExceedError <==> trap == Trap::Host(
            VmError::GasLimitExceeded,
        ),
{
}

} // verus!
