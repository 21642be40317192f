use std::sync::{Arc, Mutex};

use go_owasm::env::{
    copy_bytes, Env, EnvState, MemoryEnv, STATUS_FAILED, STATUS_OK, STATUS_PENDING,
};
use go_owasm::vm::VMLogic;
use wasmer_runtime_core::memory::Memory;
use wasmer_runtime_core::types::MemoryDescriptor;
use wasmer_runtime_core::units::Pages;

/// An environment that keeps a record of the calls made on it.
struct Recorder {
    calls: Arc<Mutex<Vec<String>>>,
}

impl Recorder {
    fn note(&self, call: String) {
        self.calls.lock().unwrap().push(call);
    }
}

impl Env for Recorder {
    fn state(&self) -> EnvState {
        unreachable!()
    }

    fn get_calldata(&self) -> Vec<u8> {
        self.note("get_calldata".to_string());
        vec![1, 2, 3]
    }

    fn set_return_data(&mut self, data: &[u8]) {
        self.note(format!("set_return_data {:?}", data));
    }

    fn get_ask_count(&self) -> i64 {
        self.note("get_ask_count".to_string());
        4
    }

    fn get_min_count(&self) -> i64 {
        self.note("get_min_count".to_string());
        3
    }

    fn get_ans_count(&self) -> i64 {
        self.note("get_ans_count".to_string());
        2
    }

    fn ask_external_data(&mut self, eid: i64, did: i64, data: &[u8]) {
        self.note(format!("ask_external_data {} {} {:?}", eid, did, data));
    }

    fn get_external_data_status(&self, eid: i64, vid: i64) -> i64 {
        self.note(format!("get_external_data_status {} {}", eid, vid));
        eid * 10 + vid
    }

    fn get_external_data(&self, eid: i64, vid: i64) -> Vec<u8> {
        self.note(format!("get_external_data {} {}", eid, vid));
        vec![eid as u8; vid as usize]
    }
}

fn memory() -> Memory {
    Memory::new(MemoryDescriptor::new(Pages(1), None, false).unwrap()).unwrap()
}

#[test]
fn the_bridge_fetches_input_and_counts_once() {
    let calls = Arc::new(Mutex::new(Vec::new()));
    let vm = VMLogic::new(Recorder { calls: calls.clone() }, 10);
    let fetched = calls.lock().unwrap().clone();
    assert_eq!(fetched, vec!["get_calldata", "get_ask_count", "get_min_count", "get_ans_count"]);
    assert_eq!(vm.get_calldata_size(), 3);
    assert_eq!(vm.get_calldata_size(), 3);
    assert_eq!((vm.get_ask_count(), vm.get_min_count(), vm.get_ans_count()), (4, 3, 2));
    assert_eq!(calls.lock().unwrap().len(), 4);
}

#[test]
fn the_bridge_forwards_what_it_is_asked_to() {
    let calls = Arc::new(Mutex::new(Vec::new()));
    let mut vm = VMLogic::new(Recorder { calls: calls.clone() }, 10);
    let mut memory = memory();
    calls.lock().unwrap().clear();
    vm.read_calldata(&mut memory, 0, 3).unwrap();
    vm.set_return_data(&memory, 1, 2).unwrap();
    vm.ask_external_data(&memory, 7, 8, 0, 3).unwrap();
    assert_eq!(vm.get_external_data_status(7, 8), 78);
    assert_eq!(vm.get_external_data_size(5, 4), 4);
    vm.read_external_data(&mut memory, 9, 2, 10, 2).unwrap();
    assert!(vm.set_return_data(&memory, -1, 2).is_err());
    assert!(vm.ask_external_data(&memory, 7, 8, -1, 3).is_err());
    assert!(vm.consume_gas(11).is_err());
    let made = calls.lock().unwrap().clone();
    assert_eq!(
        made,
        vec![
            "set_return_data [2, 3]",
            "ask_external_data 7 8 [1, 2, 3]",
            "get_external_data_status 7 8",
            "get_external_data 5 4",
            "get_external_data 9 2",
        ]
    );
    assert_eq!(memory.view::<u8>()[10].get(), 9);
    assert_eq!(memory.view::<u8>()[11].get(), 9);
}

#[test]
fn a_fresh_environment_holds_nothing_but_its_input() {
    let env = MemoryEnv::new(b"input".to_vec(), 4, 3, 2);
    assert_eq!(env.get_calldata(), b"input".to_vec());
    assert_eq!((env.get_ask_count(), env.get_min_count(), env.get_ans_count()), (4, 3, 2));
    assert_eq!(env.return_data(), &None);
    assert!(env.requests().is_empty());
    assert_eq!(env.get_external_data_status(0, 0), STATUS_PENDING);
    assert_eq!(env.get_external_data_status(i64::MIN, i64::MAX), STATUS_PENDING);
    assert_eq!(env.get_external_data(0, 0), Vec::<u8>::new());
}

#[test]
fn the_statuses_are_told_apart() {
    assert_eq!(STATUS_PENDING, 0);
    assert_eq!(STATUS_OK, 1);
    assert_eq!(STATUS_FAILED, 2);
}

#[test]
fn an_environment_keeps_what_it_is_handed() {
    let mut env = MemoryEnv::new(Vec::new(), 4, 3, 2);
    env.set_return_data(b"one");
    assert_eq!(env.return_data(), &Some(b"one".to_vec()));
    env.set_return_data(b"");
    assert_eq!(env.return_data(), &Some(Vec::new()));
    env.ask_external_data(1, 2, b"a");
    env.ask_external_data(1, 2, b"a");
    env.ask_external_data(-3, 0, b"");
    let asked: Vec<_> =
        env.requests().iter().map(|a| (a.eid, a.did, a.payload.clone())).collect();
    assert_eq!(asked, vec![(1, 2, b"a".to_vec()), (1, 2, b"a".to_vec()), (-3, 0, Vec::new())]);
    assert_eq!(env.return_data(), &Some(Vec::new()));
    assert_eq!(env.get_external_data_status(1, 2), STATUS_PENDING);
}

#[test]
fn a_resolution_is_held_for_its_pair() {
    let mut env = MemoryEnv::new(Vec::new(), 4, 3, 2);
    env.ask_external_data(1, 2, b"a");
    env.resolve(1, 0, STATUS_OK, b"answer".to_vec());
    assert_eq!(env.get_external_data_status(1, 0), STATUS_OK);
    assert_eq!(env.get_external_data(1, 0), b"answer".to_vec());
    assert_eq!(env.get_external_data_status(0, 1), STATUS_PENDING);
    assert_eq!(env.get_external_data(0, 1), Vec::<u8>::new());
    assert_eq!(env.get_external_data_status(1, 1), STATUS_PENDING);
    env.resolve(1, 0, STATUS_FAILED, Vec::new());
    assert_eq!(env.get_external_data_status(1, 0), STATUS_FAILED);
    assert_eq!(env.get_external_data(1, 0), Vec::<u8>::new());
    assert_eq!(env.requests().len(), 1);
}

#[test]
fn copy_bytes_copies() {
    assert_eq!(copy_bytes(b"some bytes"), b"some bytes".to_vec());
    assert_eq!(copy_bytes(b""), Vec::<u8>::new());
}
