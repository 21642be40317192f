use go_owasm::env::{MemoryEnv, STATUS_OK, STATUS_PENDING};
use go_owasm::error::{Error, VmError};
use go_owasm::instrument::compile;
use go_owasm::run::{finish, resolved, Phase};
use go_owasm::vm::VMLogic;
use parity_wasm::builder;
use parity_wasm::elements::{Instruction, Instructions, Internal, Module};
use wasmer_runtime_core::error::{ResolveError, RuntimeError};
use wasmer_runtime_core::memory::Memory;
use wasmer_runtime_core::types::MemoryDescriptor;
use wasmer_runtime_core::units::Pages;

/// Walks the straight-line body of one function of an instrumented module
/// and makes its host calls on the bridge, as a sandbox would.
fn walk(
    module: &Module,
    function: u32,
    vm: &mut VMLogic<MemoryEnv>,
    memory: &mut Memory,
    stack: &mut Vec<i64>,
) -> Result<(), VmError> {
    let imports: Vec<String> = match module.import_section() {
        Some(section) => section.entries().iter().map(|e| e.field().to_string()).collect(),
        None => Vec::new(),
    };
    let body = &module.code_section().unwrap().bodies()[function as usize - imports.len()];
    for instruction in body.code().elements() {
        match instruction {
            Instruction::I32Const(value) => stack.push(*value as i64),
            Instruction::I64Const(value) => stack.push(*value),
            Instruction::Drop => {
                stack.pop().unwrap();
            }
            Instruction::Nop | Instruction::End => {}
            Instruction::Call(index) if (*index as usize) < imports.len() => {
                match imports[*index as usize].as_str() {
                    "gas" => {
                        let amount = stack.pop().unwrap();
                        vm.consume_gas(amount as u32)?
                    }
                    "get_calldata_size" => stack.push(vm.get_calldata_size()),
                    "read_calldata" => {
                        let len = stack.pop().unwrap();
                        let ptr = stack.pop().unwrap();
                        vm.read_calldata(memory, ptr, len)?
                    }
                    "set_return_data" => {
                        let len = stack.pop().unwrap();
                        let ptr = stack.pop().unwrap();
                        vm.set_return_data(memory, ptr, len)?
                    }
                    "ask_external_data" => {
                        let len = stack.pop().unwrap();
                        let ptr = stack.pop().unwrap();
                        let did = stack.pop().unwrap();
                        let eid = stack.pop().unwrap();
                        vm.ask_external_data(memory, eid, did, ptr, len)?
                    }
                    "get_external_data_status" => {
                        let vid = stack.pop().unwrap();
                        let eid = stack.pop().unwrap();
                        stack.push(vm.get_external_data_status(eid, vid))
                    }
                    other => panic!("no host function {}", other),
                }
            }
            Instruction::Call(index) => walk(module, *index, vm, memory, stack)?,
            other => panic!("the walk does not know {:?}", other),
        }
    }
    Ok(())
}

/// Runs one phase of an instrumented module on the bridge, by walking the
/// function that the phase selects.
fn play(code: &[u8], is_prepare: bool, vm: &mut VMLogic<MemoryEnv>) -> Result<(), Error> {
    let module: Module = parity_wasm::deserialize_buffer(code).unwrap();
    let name = Phase::select(is_prepare).entry_point();
    let entry = module.export_section().and_then(|section| {
        section.entries().iter().find(|e| e.field() == name).map(|e| *e.internal())
    });
    let function = match entry {
        Some(Internal::Function(index)) => index,
        _ => {
            let missing = ResolveError::ExportNotFound { name: name.to_string() };
            return resolved(Err(missing)).map(|_| ());
        }
    };
    let mut memory = Memory::new(MemoryDescriptor::new(Pages(1), None, false).unwrap()).unwrap();
    let walked = walk(&module, function, vm, &mut memory, &mut Vec::new());
    finish(walked.map_err(|signal| RuntimeError::User(Box::new(signal))))
}

fn import(module: &mut builder::ModuleBuilder, name: &str, params: usize, returns: bool) {
    let mut signature = builder::signature();
    for _ in 0..params {
        signature = signature.param().i64();
    }
    let signature = if returns {
        signature.return_type().i64().build_sig()
    } else {
        signature.build_sig()
    };
    let index = module.push_signature(signature);
    module.push_import(
        builder::import().module("env").field(name).external().func(index).build(),
    );
}

/// A module whose `execute` reads the whole input into its memory at 16
/// and hands the same bytes back as the output. It has no `prepare`.
fn echo() -> Vec<u8> {
    let mut module = builder::module();
    import(&mut module, "get_calldata_size", 0, true);
    import(&mut module, "read_calldata", 2, false);
    import(&mut module, "set_return_data", 2, false);
    let module = module
        .memory()
        .with_min(1)
        .build()
        .function()
        .signature()
        .build()
        .body()
        .with_instructions(Instructions::new(vec![
            Instruction::I64Const(16),
            Instruction::Call(0),
            Instruction::Call(1),
            Instruction::I64Const(16),
            Instruction::Call(0),
            Instruction::Call(2),
            Instruction::End,
        ]))
        .build()
        .build()
        .export()
        .field("execute")
        .internal()
        .func(3)
        .build()
        .build();
    compile(&parity_wasm::serialize(module).unwrap()).unwrap()
}

/// A module whose `prepare` asks for external data twice and whose
/// `execute` polls the status of one pair and hands nothing back.
fn asker() -> Vec<u8> {
    let mut module = builder::module();
    import(&mut module, "ask_external_data", 4, false);
    import(&mut module, "get_external_data_status", 2, true);
    let module = module
        .memory()
        .with_min(1)
        .build()
        .function()
        .signature()
        .build()
        .body()
        .with_instructions(Instructions::new(vec![
            Instruction::I64Const(1),
            Instruction::I64Const(42),
            Instruction::I64Const(0),
            Instruction::I64Const(4),
            Instruction::Call(0),
            Instruction::I64Const(2),
            Instruction::I64Const(43),
            Instruction::I64Const(4),
            Instruction::I64Const(2),
            Instruction::Call(0),
            Instruction::I64Const(1),
            Instruction::I64Const(0),
            Instruction::Call(1),
            Instruction::Drop,
            Instruction::End,
        ]))
        .build()
        .build()
        .function()
        .signature()
        .build()
        .body()
        .with_instructions(Instructions::new(vec![
            Instruction::I64Const(1),
            Instruction::I64Const(0),
            Instruction::Call(1),
            Instruction::Drop,
            Instruction::End,
        ]))
        .build()
        .build()
        .export()
        .field("prepare")
        .internal()
        .func(2)
        .build()
        .export()
        .field("execute")
        .internal()
        .func(3)
        .build()
        .build();
    compile(&parity_wasm::serialize(module).unwrap()).unwrap()
}

fn bridge(calldata: &[u8], gas_limit: u32) -> VMLogic<MemoryEnv> {
    VMLogic::new(MemoryEnv::new(calldata.to_vec(), 4, 3, 2), gas_limit)
}

#[test]
fn echo_leaves_the_input_in_the_return_buffer() {
    let calldata = b"what the caller sent".to_vec();
    let mut vm = bridge(&calldata, 6);
    assert_eq!(play(&echo(), false, &mut vm), Ok(()));
    assert_eq!(vm.env().return_data(), &Some(calldata));
    assert_eq!(vm.gas_remaining(), 0);
}

#[test]
fn echo_with_more_gas_keeps_the_rest() {
    let mut vm = bridge(b"", 1_000_000);
    assert_eq!(play(&echo(), false, &mut vm), Ok(()));
    assert_eq!(vm.env().return_data(), &Some(Vec::new()));
    assert_eq!(vm.gas_remaining(), 999_994);
}

#[test]
fn echo_without_gas_is_stopped_before_it_does_anything() {
    let mut vm = bridge(b"what the caller sent", 0);
    assert_eq!(play(&echo(), false, &mut vm), Err(Error::GasLimitExceedError));
    assert_eq!(vm.env().return_data(), &None);
    assert_eq!(vm.get_return_data(), &Vec::<u8>::new());
}

#[test]
fn echo_one_gas_short_is_stopped_before_it_does_anything() {
    let mut vm = bridge(b"what the caller sent", 5);
    assert_eq!(play(&echo(), false, &mut vm), Err(Error::GasLimitExceedError));
    assert_eq!(vm.env().return_data(), &None);
    assert_eq!(vm.gas_remaining(), 5);
}

#[test]
fn a_phase_that_is_not_exported_is_not_found_whatever_the_gas() {
    for gas_limit in [0, 1, 1_000] {
        let mut vm = bridge(b"what the caller sent", gas_limit);
        assert_eq!(play(&echo(), true, &mut vm), Err(Error::FunctionNotFoundError));
        assert_eq!(vm.gas_remaining(), gas_limit);
        assert_eq!(vm.env().return_data(), &None);
    }
}

#[test]
fn each_phase_runs_its_own_export() {
    let mut vm = bridge(b"", 100);
    assert_eq!(play(&asker(), true, &mut vm), Ok(()));
    assert_eq!(vm.env().requests().len(), 2);
    assert_eq!(vm.gas_remaining(), 100 - 14);
    let mut vm = bridge(b"", 100);
    assert_eq!(play(&asker(), false, &mut vm), Ok(()));
    assert_eq!(vm.env().requests().len(), 0);
    assert_eq!(vm.gas_remaining(), 100 - 4);
}

#[test]
fn what_was_asked_stays_asked_when_the_gas_runs_out_later() {
    let mut env = MemoryEnv::new(Vec::new(), 4, 3, 2);
    env.resolve(7, 7, STATUS_OK, b"unrelated".to_vec());
    let mut vm = VMLogic::new(env, 14);
    assert_eq!(play(&asker(), true, &mut vm), Ok(()));
    let asked: Vec<_> =
        vm.env().requests().iter().map(|a| (a.eid, a.did, a.payload.len())).collect();
    assert_eq!(asked, vec![(1, 42, 4), (2, 43, 2)]);
    assert_eq!(vm.get_external_data_status(1, 0), STATUS_PENDING);
    assert_eq!(vm.get_external_data_status(1, 42), STATUS_PENDING);
    assert_eq!(play(&asker(), false, &mut vm), Err(Error::GasLimitExceedError));
    assert_eq!(vm.env().requests().len(), 2);
}

#[test]
fn a_range_outside_the_memory_is_a_run_error() {
    let mut module = builder::module();
    import(&mut module, "set_return_data", 2, false);
    let module = module
        .memory()
        .with_min(1)
        .build()
        .function()
        .signature()
        .build()
        .body()
        .with_instructions(Instructions::new(vec![
            Instruction::I64Const(65_530),
            Instruction::I64Const(7),
            Instruction::Call(0),
            Instruction::End,
        ]))
        .build()
        .build()
        .export()
        .field("execute")
        .internal()
        .func(1)
        .build()
        .build();
    let code = compile(&parity_wasm::serialize(module).unwrap()).unwrap();
    let mut vm = bridge(b"", 100);
    assert_eq!(play(&code, false, &mut vm), Err(Error::RunError));
    assert_eq!(vm.env().return_data(), &None);
    assert_eq!(vm.gas_remaining(), 97);
}
