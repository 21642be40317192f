//! The environment capability: what supplies a call's input, accepts its
//! output and answers for external data, together with an environment that
//! lives in memory.

use vstd::prelude::*;

verus! {

/// A request for external data, as the sandbox asked for it.
pub ghost struct Request {
    pub eid: i64,
    pub did: i64,
    pub payload: Seq<u8>,
}

/// What an environment holds, as far as one call can tell.
pub ghost struct EnvState {
    /// The input of the call.
    pub calldata: Seq<u8>,
    pub ask_count: i64,
    pub min_count: i64,
    pub ans_count: i64,
    /// The output last handed over, `None` while none was.
    pub return_data: Option<Seq<u8>>,
    /// The requests registered so far, oldest first.
    pub requests: Seq<Request>,
    /// The status the environment answers with for each `(eid, vid)`.
    pub status: Map<(i64, i64), i64>,
    /// The payload the environment holds for each `(eid, vid)`.
    pub data: Map<(i64, i64), Seq<u8>>,
}

/// The capability a caller implements and the host bridge consumes. Each
/// operation is described by what it does to the state the environment
/// stands for; nothing is said of which statuses or payloads an environment
/// holds.
pub trait Env {
    /// The state that the environment stands for. It is ghost: nothing calls
    /// it when the program runs.
    spec fn state(&self) -> EnvState;

    fn get_calldata(&self) -> (data: Vec<u8>)
        ensures
            data@ == self.state().calldata,
    ;

    fn set_return_data(&mut self, data: &[u8])
        ensures
            final(self).state() == (EnvState { return_data: Some(data@), ..old(self).state() }),
    ;

    fn get_ask_count(&self) -> (count: i64)
        ensures
            count == self.state().ask_count,
    ;

    fn get_min_count(&self) -> (count: i64)
        ensures
            count == self.state().min_count,
    ;

    fn get_ans_count(&self) -> (count: i64)
        ensures
            count == self.state().ans_count,
    ;

    fn ask_external_data(&mut self, eid: i64, did: i64, data: &[u8])
        ensures
            final(self).state() == (EnvState {
                requests: old(self).state().requests.push(Request { eid, did, payload: data@ }),
                ..old(self).state()
            }),
    ;

    fn get_external_data_status(&self, eid: i64, vid: i64) -> (status: i64)
        ensures
            status == self.state().status[(eid, vid)],
    ;

    fn get_external_data(&self, eid: i64, vid: i64) -> (data: Vec<u8>)
        ensures
            data@ == self.state().data[(eid, vid)],
    ;
}

/// Copies a byte slice into a vector of its own.
pub fn copy_bytes(data: &[u8]) -> (copy: Vec<u8>)
    ensures
        copy@ == data@,
{
    let mut copy: Vec<u8> = Vec::new();
    let mut i: usize = 0;
    while i < data.len()
        invariant
            i <= data@.len(),
            copy@ == data@.subrange(0, i as int),
        decreases data@.len() - i,
    {
        copy.push(data[i]);
        i = i + 1;
    }
    copy
}

/// The status an in-memory environment answers with for a pair that was not
/// resolved.
pub const STATUS_PENDING: i64 = 0;

/// The status of a pair that was resolved with a payload.
pub const STATUS_OK: i64 = 1;

/// The status of a pair whose resolution failed.
pub const STATUS_FAILED: i64 = 2;

/// A request as an in-memory environment keeps it.
pub struct AskedData {
    pub eid: i64,
    pub did: i64,
    pub payload: Vec<u8>,
}

/// The resolution of one `(eid, vid)` pair.
struct ResolvedData {
    eid: i64,
    vid: i64,
    status: i64,
    payload: Vec<u8>,
}

impl AskedData {
    pub open spec fn request(self) -> Request {
        Request { eid: self.eid, did: self.did, payload: self.payload@ }
    }
}

/// The latest resolution of `(eid, vid)` among `resolved`, if there is one.
spec fn latest(resolved: Seq<ResolvedData>, eid: i64, vid: i64) -> Option<ResolvedData>
    decreases resolved.len(),
{
    if resolved.len() == 0 {
        None
    } else if resolved.last().eid == eid && resolved.last().vid == vid {
        Some(resolved.last())
    } else {
        latest(resolved.drop_last(), eid, vid)
    }
}

/// The status held for `(eid, vid)`: that of its latest resolution, and
/// pending while there is none.
spec fn status_of(resolved: Seq<ResolvedData>, eid: i64, vid: i64) -> i64 {
    match latest(resolved, eid, vid) {
        Some(r) => r.status,
        None => STATUS_PENDING,
    }
}

/// The payload held for `(eid, vid)`: that of its latest resolution, and
/// empty while there is none.
spec fn data_of(resolved: Seq<ResolvedData>, eid: i64, vid: i64) -> Seq<u8> {
    match latest(resolved, eid, vid) {
        Some(r) => r.payload@,
        None => Seq::empty(),
    }
}

/// The state of an environment that was handed nothing yet: every pair is
/// pending and holds no payload.
pub open spec fn fresh_state(
    calldata: Seq<u8>,
    ask_count: i64,
    min_count: i64,
    ans_count: i64,
) -> EnvState {
    EnvState {
        calldata,
        ask_count,
        min_count,
        ans_count,
        return_data: None,
        requests: Seq::empty(),
        status: Map::total(|k: (i64, i64)| STATUS_PENDING),
        data: Map::total(|k: (i64, i64)| Seq::<u8>::empty()),
    }
}

/// An environment that lives in memory: it is given its input and its
/// resolutions, and keeps whatever a call hands over.
pub struct MemoryEnv {
    calldata: Vec<u8>,
    ask_count: i64,
    min_count: i64,
    ans_count: i64,
    return_data: Option<Vec<u8>>,
    requests: Vec<AskedData>,
    resolved: Vec<ResolvedData>,
}

impl MemoryEnv {
    /// The state that the environment stands for.
    pub closed spec fn model(&self) -> EnvState {
        EnvState {
            calldata: self.calldata@,
            ask_count: self.ask_count,
            min_count: self.min_count,
            ans_count: self.ans_count,
            return_data: match self.return_data {
                Some(data) => Some(data@),
                None => None,
            },
            requests: self.requests@.map_values(|a: AskedData| a.request()),
            status: Map::total(|k: (i64, i64)| status_of(self.resolved@, k.0, k.1)),
            data: Map::total(|k: (i64, i64)| data_of(self.resolved@, k.0, k.1)),
        }
    }

    /// An environment with the given input and counts, no output, no request
    /// and no resolution: every pair is pending and holds no payload.
    pub fn new(calldata: Vec<u8>, ask_count: i64, min_count: i64, ans_count: i64) -> (env: Self)
        ensures
            env.model() == fresh_state(calldata@, ask_count, min_count, ans_count),
    {
        let env = MemoryEnv {
            calldata,
            ask_count,
            min_count,
            ans_count,
            return_data: None,
            requests: Vec::new(),
            resolved: Vec::new(),
        };
        proof {
            let fresh = fresh_state(calldata@, ask_count, min_count, ans_count);
            assert(env.model().requests =~= fresh.requests);
            assert(env.model().status =~= fresh.status);
            assert(env.model().data =~= fresh.data);
        }
        env
    }

    /// Records a resolution of `(eid, vid)`. It replaces what was held for
    /// that pair and touches no other pair.
    pub fn resolve(&mut self, eid: i64, vid: i64, status: i64, payload: Vec<u8>)
        ensures
            final(self).model() == (EnvState {
                status: old(self).model().status.insert((eid, vid), status),
                data: old(self).model().data.insert((eid, vid), payload@),
                ..old(self).model()
            }),
    {
        let ghost before = self.resolved@;
        let ghost payload_view = payload@;
        self.resolved.push(ResolvedData { eid, vid, status, payload });
        proof {
            let after = self.resolved@;
            assert(after.drop_last() == before);
            assert forall|k: (i64, i64)|
                status_of(after, k.0, k.1) == #[trigger] old(self).model().status.insert(
                    (eid, vid),
                    status,
                )[k] by {}
            assert forall|k: (i64, i64)|
                data_of(after, k.0, k.1) == #[trigger] old(self).model().data.insert(
                    (eid, vid),
                    payload_view,
                )[k] by {}
            assert(final(self).model().status =~= old(self).model().status.insert(
                (eid, vid),
                status,
            ));
            assert(final(self).model().data =~= old(self).model().data.insert(
                (eid, vid),
                payload_view,
            ));
        }
    }

    /// Where the latest resolution of `(eid, vid)` stands, if there is one.
    fn find(&self, eid: i64, vid: i64) -> (found: Option<usize>)
        ensures
            match found {
                Some(i) => i < self.resolved@.len() && latest(self.resolved@, eid, vid) == Some(
                    self.resolved@[i as int],
                ),
                None => latest(self.resolved@, eid, vid) is None,
            },
    {
        let mut i: usize = self.resolved.len();
        assert(self.resolved@.subrange(0, i as int) == self.resolved@);
        while i > 0
            invariant
                i <= self.resolved@.len(),
                latest(self.resolved@, eid, vid) == latest(
                    self.resolved@.subrange(0, i as int),
                    eid,
                    vid,
                ),
            decreases i,
        {
            i = i - 1;
            if self.resolved[i].eid == eid && self.resolved[i].vid == vid {
                return Some(i);
            }
            assert(self.resolved@.subrange(0, i + 1).drop_last() == self.resolved@.subrange(
                0,
                i as int,
            ));
        }
        None
    }

    /// The output last handed over, if any was.
    pub fn return_data(&self) -> (data: &Option<Vec<u8>>)
        ensures
            match *data {
                Some(bytes) => self.model().return_data == Some(bytes@),
                None => self.model().return_data is None,
            },
    {
        &self.return_data
    }

    /// The requests registered so far, oldest first.
    pub fn requests(&self) -> (asked: &Vec<AskedData>)
        ensures
            asked@.map_values(|a: AskedData| a.request()) == self.model().requests,
    {
        &self.requests
    }
}

impl Env for MemoryEnv {
    open spec fn state(&self) -> EnvState {
        self.model()
    }

    fn get_calldata(&self) -> (data: Vec<u8>) {
        copy_bytes(self.calldata.as_slice())
    }

    fn set_return_data(&mut self, data: &[u8]) {
        self.return_data = Some(copy_bytes(data));
    }

    fn get_ask_count(&self) -> (count: i64) {
        self.ask_count
    }

    fn get_min_count(&self) -> (count: i64) {
        self.min_count
    }

    fn get_ans_count(&self) -> (count: i64) {
        self.ans_count
    }

    fn ask_external_data(&mut self, eid: i64, did: i64, data: &[u8]) {
        let ghost before = self.requests@;
        let asked = AskedData { eid, did, payload: copy_bytes(data) };
        self.requests.push(asked);
        proof {
            assert(self.requests@.map_values(|a: AskedData| a.request()) =~= before.map_values(
                |a: AskedData| a.request(),
            ).push(Request { eid, did, payload: data@ }));
        }
    }

    fn get_external_data_status(&self, eid: i64, vid: i64) -> (status: i64) {
        match self.find(eid, vid) {
            Some(i) => self.resolved[i].status,
            None => STATUS_PENDING,
        }
    }

    fn get_external_data(&self, eid: i64, vid: i64) -> (data: Vec<u8>) {
        match self.find(eid, vid) {
            Some(i) => copy_bytes(self.resolved[i].payload.as_slice()),
            None => Vec::new(),
        }
    }
}

/// Registering a request resolves nothing: a pair that was pending before
/// is pending after, and every pair holds the status and the payload it
/// held before.
pub proof fn lemma_asking_resolves_nothing(before: EnvState, request: Request, eid: i64, vid: i64)
    ensures
        ({
            let after = EnvState { requests: before.requests.push(request), ..before };
            &&& after.status[(eid, vid)] == before.status[(eid, vid)]
            &&& after.data[(eid, vid)] == before.data[(eid, vid)]
            &&& before.status[(eid, vid)] == STATUS_PENDING ==> after.status[(eid, vid)]
                == STATUS_PENDING
        }),
{
}

/// A resolution is held for its own pair only: every other pair keeps the
/// status and the payload it had.
pub proof fn lemma_resolution_is_exact(
    before: EnvState,
    eid: i64,
    vid: i64,
    status: i64,
    payload: Seq<u8>,
    other_eid: i64,
    other_vid: i64,
)
    requires
        (other_eid, other_vid) != (eid, vid),
    ensures
        before.status.insert((eid, vid), status)[(other_eid, other_vid)] == before.status[(
            other_eid,
            other_vid,
        )],
        before.data.insert((eid, vid), payload)[(other_eid, other_vid)] == before.data[(
            other_eid,
            other_vid,
        )],
        before.status.insert((eid, vid), status)[(eid, vid)] == status,
        before.data.insert((eid, vid), payload)[(eid, vid)] == payload,
{
}

} // verus!
