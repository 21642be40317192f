//! The host bridge: the one object a sandbox can call out to. It owns the
//! gas budget, the input and the output of one execution, and forwards
//! everything else to the environment.

use vstd::prelude::*;
use wasmer_runtime_core::memory::Memory;
use crate::env::{Env, EnvState, Request};
use crate::error::VmError;
use crate::gas::{charged, GasState};
use crate::memory::{copy_in, copy_out, memory_bytes, read_bytes, write_bytes};

verus! {

/// What a host bridge holds.
pub ghost struct VmState<E> {
    pub env: E,
    pub gas_limit: nat,
    pub gas_remaining: nat,
    pub calldata: Seq<u8>,
    pub return_data: Seq<u8>,
    pub ask_count: i64,
    pub min_count: i64,
    pub ans_count: i64,
}

/// The host bridge of one execution.
pub struct VMLogic<E: Env> {
    env: E,
    gas: GasState,
    calldata: Vec<u8>,
    return_data: Vec<u8>,
    ask_count: i64,
    min_count: i64,
    ans_count: i64,
}

/// A byte length as the sandbox is told it: the length itself, and the
/// largest `i64` for a length beyond it.
pub open spec fn size_code(len: nat) -> i64 {
    if len <= i64::MAX {
        len as i64
    } else {
        i64::MAX
    }
}

/// The length of `data` as the sandbox is told it.
pub fn size_of(data: &Vec<u8>) -> (size: i64)
    ensures
        size == size_code(data@.len()),
{
    let len: u64 = data.len() as u64;
    if len > 0x7fff_ffff_ffff_ffffu64 {
        i64::MAX
    } else {
        len as i64
    }
}

/// What every host function leaves alone: the input, the counts and the
/// gas limit stay, and what is left of the gas never grows.
pub open spec fn call_stable<E>(before: VmState<E>, after: VmState<E>) -> bool {
    &&& after.calldata == before.calldata
    &&& after.ask_count == before.ask_count
    &&& after.min_count == before.min_count
    &&& after.ans_count == before.ans_count
    &&& after.gas_limit == before.gas_limit
    &&& after.gas_remaining <= before.gas_remaining
}

impl<E: Env> View for VMLogic<E> {
    type V = VmState<E>;

    closed spec fn view(&self) -> VmState<E> {
        VmState {
            env: self.env,
            gas_limit: self.gas.limit(),
            gas_remaining: self.gas.remaining(),
            calldata: self.calldata@,
            return_data: self.return_data@,
            ask_count: self.ask_count,
            min_count: self.min_count,
            ans_count: self.ans_count,
        }
    }
}

impl<E: Env> VMLogic<E> {
    /// A fresh bridge bound to `env`: all of `gas_limit` is left, the input
    /// and the counts are fetched from the environment once, and the output
    /// is empty.
    pub fn new(env: E, gas_limit: u32) -> (vm: Self)
        ensures
            vm@ == (VmState {
                env,
                gas_limit: gas_limit as nat,
                gas_remaining: gas_limit as nat,
                calldata: env.state().calldata,
                return_data: Seq::<u8>::empty(),
                ask_count: env.state().ask_count,
                min_count: env.state().min_count,
                ans_count: env.state().ans_count,
            }),
    {
        let calldata = env.get_calldata();
        let ask_count = env.get_ask_count();
        let min_count = env.get_min_count();
        let ans_count = env.get_ans_count();
        VMLogic {
            env,
            gas: GasState::new(gas_limit),
            calldata,
            return_data: Vec::new(),
            ask_count,
            min_count,
            ans_count,
        }
    }

    /// Takes `amount` out of the gas that is left. Where less is left, the
    /// charge is refused with `GasLimitExceeded` and the bridge stays as it
    /// was.
    pub fn consume_gas(&mut self, amount: u32) -> (r: Result<(), VmError>)
        ensures
            call_stable(old(self)@, final(self)@),
            final(self)@.gas_remaining <= final(self)@.gas_limit,
            match charged(old(self)@.gas_remaining, amount as nat) {
                Some(left) => r is Ok && final(self)@ == (VmState {
                    gas_remaining: left,
                    ..old(self)@
                }),
                None => r == Err::<(), VmError>(VmError::GasLimitExceeded)
                    && final(self)@ == old(self)@,
            },
    {
        self.gas.consume(amount)
    }

    /// The gas limit the execution started with.
    pub fn gas_limit(&self) -> (limit: u32)
        ensures
            limit == self@.gas_limit,
    {
        self.gas.get_limit()
    }

    /// The gas that is left. It never exceeds the limit.
    pub fn gas_remaining(&self) -> (remaining: u32)
        ensures
            remaining == self@.gas_remaining,
            remaining <= self@.gas_limit,
    {
        self.gas.get_remaining()
    }

    /// The environment the bridge is bound to.
    pub fn env(&self) -> (env: &E)
        ensures
            *env == self@.env,
    {
        &self.env
    }

    /// The input of the call.
    pub fn get_calldata(&self) -> (data: &Vec<u8>)
        ensures
            data@ == self@.calldata,
    {
        &self.calldata
    }

    /// The output as the sandbox last set it.
    pub fn get_return_data(&self) -> (data: &Vec<u8>)
        ensures
            data@ == self@.return_data,
    {
        &self.return_data
    }

    /// The byte length of the input of the call.
    pub fn get_calldata_size(&self) -> (size: i64)
        ensures
            size == size_code(self@.calldata.len()),
    {
        size_of(&self.calldata)
    }

    /// Copies the first `len` bytes of the input into the sandbox memory at
    /// `ptr`. A length beyond the input, or a range outside the memory, is
    /// refused and nothing is written.
    pub fn read_calldata(&self, memory: &mut Memory, ptr: i64, len: i64) -> (r: Result<
        (),
        VmError,
    >)
        ensures
            match copy_in(memory_bytes(*old(memory)), self@.calldata, ptr as int, len as int) {
                Ok(after) => r is Ok && memory_bytes(*final(memory)) == after,
                Err(e) => r == Err::<(), VmError>(e) && memory_bytes(*final(memory))
                    == memory_bytes(*old(memory)),
            },
    {
        write_bytes(memory, self.calldata.as_slice(), ptr, len)
    }

    /// Replaces the output with the `len` bytes of the sandbox memory at
    /// `ptr` and hands them to the environment. A range outside the memory
    /// is refused and the bridge stays as it was.
    pub fn set_return_data(&mut self, memory: &Memory, ptr: i64, len: i64) -> (r: Result<
        (),
        VmError,
    >)
        ensures
            call_stable(old(self)@, final(self)@),
            match copy_out(memory_bytes(*memory), ptr as int, len as int) {
                Ok(bytes) => {
                    &&& r is Ok
                    &&& final(self)@ == (VmState {
                        env: final(self)@.env,
                        return_data: bytes,
                        ..old(self)@
                    })
                    &&& final(self)@.env.state() == (EnvState {
                        return_data: Some(bytes),
                        ..old(self)@.env.state()
                    })
                },
                Err(e) => r == Err::<(), VmError>(e) && final(self)@ == old(self)@,
            },
    {
        let bytes = match read_bytes(memory, ptr, len) {
            Ok(bytes) => bytes,
            Err(e) => return Err(e),
        };
        self.env.set_return_data(bytes.as_slice());
        self.return_data = bytes;
        Ok(())
    }

    /// The number of validators asked, as fetched when the call started.
    pub fn get_ask_count(&self) -> (count: i64)
        ensures
            count == self@.ask_count,
    {
        self.ask_count
    }

    /// The number of answers needed, as fetched when the call started.
    pub fn get_min_count(&self) -> (count: i64)
        ensures
            count == self@.min_count,
    {
        self.min_count
    }

    /// The number of answers received, as fetched when the call started.
    pub fn get_ans_count(&self) -> (count: i64)
        ensures
            count == self@.ans_count,
    {
        self.ans_count
    }

    /// Registers a request for external data with the environment: its
    /// payload is the `len` bytes of the sandbox memory at `ptr`. A range
    /// outside the memory is refused and nothing is registered.
    pub fn ask_external_data(
        &mut self,
        memory: &Memory,
        eid: i64,
        did: i64,
        ptr: i64,
        len: i64,
    ) -> (r: Result<(), VmError>)
        ensures
            call_stable(old(self)@, final(self)@),
            match copy_out(memory_bytes(*memory), ptr as int, len as int) {
                Ok(payload) => {
                    &&& r is Ok
                    &&& final(self)@ == (VmState { env: final(self)@.env, ..old(self)@ })
                    &&& final(self)@.env.state() == (EnvState {
                        requests: old(self)@.env.state().requests.push(
                            Request { eid, did, payload },
                        ),
                        ..old(self)@.env.state()
                    })
                },
                Err(e) => r == Err::<(), VmError>(e) && final(self)@ == old(self)@,
            },
    {
        let payload = match read_bytes(memory, ptr, len) {
            Ok(payload) => payload,
            Err(e) => return Err(e),
        };
        self.env.ask_external_data(eid, did, payload.as_slice());
        Ok(())
    }

    /// The status the environment holds for `(eid, vid)`.
    pub fn get_external_data_status(&self, eid: i64, vid: i64) -> (status: i64)
        ensures
            status == self@.env.state().status[(eid, vid)],
    {
        self.env.get_external_data_status(eid, vid)
    }

    /// The byte length of the payload the environment holds for
    /// `(eid, vid)`.
    pub fn get_external_data_size(&self, eid: i64, vid: i64) -> (size: i64)
        ensures
            size == size_code(self@.env.state().data[(eid, vid)].len()),
    {
        let data = self.env.get_external_data(eid, vid);
        size_of(&data)
    }

    /// Copies the first `len` bytes of the payload the environment holds
    /// for `(eid, vid)` into the sandbox memory at `ptr`. A length beyond
    /// the payload, or a range outside the memory, is refused and nothing
    /// is written.
    pub fn read_external_data(
        &self,
        memory: &mut Memory,
        eid: i64,
        vid: i64,
        ptr: i64,
        len: i64,
    ) -> (r: Result<(), VmError>)
        ensures
            match copy_in(
                memory_bytes(*old(memory)),
                self@.env.state().data[(eid, vid)],
                ptr as int,
                len as int,
            ) {
                Ok(after) => r is Ok && memory_bytes(*final(memory)) == after,
                Err(e) => r == Err::<(), VmError>(e) && memory_bytes(*final(memory))
                    == memory_bytes(*old(memory)),
            },
    {
        let data = self.env.get_external_data(eid, vid);
        write_bytes(memory, data.as_slice(), ptr, len)
    }
}

/// Along any run of host calls the input stays what it was when the call
/// started, and so does the size the sandbox is told.
pub proof fn lemma_calldata_is_stable<E>(states: Seq<VmState<E>>, i: int)
    requires
        forall|j: int|
            0 <= j < states.len() - 1 ==> call_stable(states[j], #[trigger] states[j + 1]),
        0 <= i < states.len(),
    ensures
        states[i].calldata == states[0].calldata,
        size_code(states[i].calldata.len()) == size_code(states[0].calldata.len()),
        states[i].gas_limit == states[0].gas_limit,
        states[i].gas_remaining <= states[0].gas_remaining,
    decreases i,
{
    if i > 0 {
        lemma_calldata_is_stable(states, i - 1);
        assert(call_stable(states[i - 1], states[i - 1 + 1]));
    }
}

} // verus!
