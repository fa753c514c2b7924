//! The mock runtime pieces of the idle scheduler tests: the tasks it schedules,
//! the relay chain block number it reads from storage, and its genesis.

use crate::weight::Weight;
use parity_scale_codec::{Decode, Encode};
use vstd::prelude::*;

verus! {

/// The computation time each mock task uses when dispatched.
pub const BASE_REF_TIME: u64 = 1_000_000;

/// The computation time that must stay free in a block before idle tasks run.
pub const MINIMUM_REF_TIME_REMAIN_IN_BLOCK: u64 = 100_000_000_000;

/// The number of relay chain blocks without a parachain block after which
/// idle tasks are no longer run.
pub const DISABLE_BLOCK_THRESHOLD: u32 = 6;

/// The weight each mock task uses when dispatched.
pub open spec fn spec_base_weight() -> Weight {
    Weight { ref_time: BASE_REF_TIME, proof_size: 0 }
}

/// The weight each mock task uses when dispatched.
pub fn base_weight() -> (w: Weight)
    ensures
        w == spec_base_weight(),
{
    Weight::from_parts(BASE_REF_TIME, 0)
}

/// The storage key under which the relay chain block number is kept: 32 zero
/// bytes.
pub fn relay_block_key() -> (k: Vec<u8>)
    ensures
        k@ == Seq::new(32, |i: int| 0u8),
{
    let mut k: Vec<u8> = Vec::new();
    let mut i: usize = 0;
    while i < 32
        invariant
            i <= 32,
            k@ == Seq::new(i as nat, |j: int| 0u8),
        decreases 32 - i,
    {
        k.push(0u8);
        i = i + 1;
    }
    k
}

/// The SCALE encoding of a `u32`: its four bytes, least significant first.
pub open spec fn scale_bytes_u32(n: u32) -> Seq<u8> {
    seq![
        (n % 256) as u8,
        ((n / 256) % 256) as u8,
        ((n / 65536) % 256) as u8,
        (n / 16777216) as u8,
    ]
}

/// The `u32` whose SCALE encoding starts `bytes`.
pub open spec fn scale_value_u32(bytes: Seq<u8>) -> u32
    recommends
        bytes.len() >= 4,
{
    (bytes[0] + 256 * bytes[1] + 65536 * bytes[2] + 16777216 * bytes[3]) as u32
}

/// Decodes a `u32` from the start of `bytes` with `Decode::decode` of
/// `parity-scale-codec`: the first four bytes, read as a little-endian number;
/// `None` where fewer than four bytes are there. Bytes after the fourth are
/// left unread.
#[verifier::external_body]
fn scale_decode_u32(bytes: &[u8]) -> (r: Option<u32>)
    ensures
        r == (if bytes@.len() >= 4 { Some(scale_value_u32(bytes@)) } else { None::<u32> }),
{
    u32::decode(&mut &bytes[..]).ok()
}

/// Encodes `n` with `Encode::encode` of `parity-scale-codec`: its four bytes,
/// least significant first.
#[verifier::external_body]
fn scale_encode_u32(n: u32) -> (r: Vec<u8>)
    ensures
        r@ == scale_bytes_u32(n),
{
    n.encode()
}

/// What decoding the encoding of a block number gives back: the number.
pub proof fn lemma_scale_u32_round_trip(n: u32)
    ensures
        scale_bytes_u32(n).len() == 4,
        scale_value_u32(scale_bytes_u32(n)) == n,
        scale_bytes_u32(n)[0] == n % 256,
        scale_bytes_u32(n)[3] == n / 16777216,
{
    let b = scale_bytes_u32(n);
    assert(b[0] == n % 256);
    assert(b[1] == (n / 256) % 256);
    assert(b[2] == (n / 65536) % 256);
    assert(b[3] == n / 16777216);
}

/// The error a dispatched task may report.
#[derive(Clone, Copy, Debug, PartialEq, Eq, Structural)]
pub enum DispatchError {
    Other,
}

/// What a dispatched task reports: whether it failed, the weight it used, and
/// whether it is finished or must be dispatched again.
#[derive(Clone, Copy, Debug, Eq)]
pub struct TaskResult {
    pub result: Result<(), DispatchError>,
    pub used_weight: Weight,
    pub finished: bool,
}

impl PartialEq for TaskResult {
    fn eq(&self, other: &Self) -> (r: bool) {
        let same_result = match self.result {
            Ok(x) => match other.result {
                Ok(y) => {
                    assert(x == y);
                    true
                },
                Err(_) => false,
            },
            Err(a) => match other.result {
                Ok(()) => false,
                Err(b) => a == b,
            },
        };
        same_result && self.used_weight == other.used_weight && self.finished == other.finished
    }
}

impl vstd::std_specs::cmp::PartialEqSpecImpl for TaskResult {
    open spec fn obeys_eq_spec() -> bool {
        true
    }

    open spec fn eq_spec(&self, other: &Self) -> bool {
        self.result == other.result && self.used_weight == other.used_weight && self.finished
            == other.finished
    }
}

/// What a mock task reports when dispatched with `weight` left: success, the
/// base weight used, and finished where the base weight fits in `weight`.
pub open spec fn spec_mock_dispatch(weight: Weight) -> TaskResult {
    TaskResult {
        result: Ok(()),
        used_weight: spec_base_weight(),
        finished: weight.ref_time >= BASE_REF_TIME,
    }
}

/// A task that the idle scheduler can run with the weight left in a block.
pub trait DispatchableTask {
    fn dispatch(self, weight: Weight) -> TaskResult;
}

/// The task the balances module schedules.
#[derive(Clone, Copy, Debug, PartialEq, Eq, Structural)]
pub enum BalancesTask {
    OnIdle,
}

impl DispatchableTask for BalancesTask {
    fn dispatch(self, weight: Weight) -> (r: TaskResult)
        ensures
            r == spec_mock_dispatch(weight),
    {
        let base = base_weight();
        TaskResult { result: Ok(()), used_weight: base, finished: weight.ref_time() >= base.ref_time() }
    }
}

/// The task the homa lite module schedules.
#[derive(Clone, Copy, Debug, PartialEq, Eq, Structural)]
pub enum HomaLiteTask {
    OnIdle,
}

impl DispatchableTask for HomaLiteTask {
    fn dispatch(self, weight: Weight) -> (r: TaskResult)
        ensures
            r == spec_mock_dispatch(weight),
    {
        let base = base_weight();
        TaskResult { result: Ok(()), used_weight: base, finished: weight.ref_time() >= base.ref_time() }
    }
}

/// Any task of the mock runtime.
#[derive(Clone, Copy, Debug, PartialEq, Eq, Structural)]
pub enum ScheduledTasks {
    BalancesTask(BalancesTask),
    HomaLiteTask(HomaLiteTask),
}

impl DispatchableTask for ScheduledTasks {
    /// Dispatches the task held.
    fn dispatch(self, weight: Weight) -> (r: TaskResult)
        ensures
            r == spec_mock_dispatch(weight),
    {
        match self {
            ScheduledTasks::BalancesTask(t) => t.dispatch(weight),
            ScheduledTasks::HomaLiteTask(t) => t.dispatch(weight),
        }
    }
}

impl From<BalancesTask> for ScheduledTasks {
    fn from(t: BalancesTask) -> (r: ScheduledTasks) {
        ScheduledTasks::BalancesTask(t)
    }
}

impl vstd::std_specs::convert::FromSpecImpl<BalancesTask> for ScheduledTasks {
    open spec fn obeys_from_spec() -> bool {
        true
    }

    open spec fn from_spec(t: BalancesTask) -> ScheduledTasks {
        ScheduledTasks::BalancesTask(t)
    }
}

impl From<HomaLiteTask> for ScheduledTasks {
    fn from(t: HomaLiteTask) -> (r: ScheduledTasks) {
        ScheduledTasks::HomaLiteTask(t)
    }
}

impl vstd::std_specs::convert::FromSpecImpl<HomaLiteTask> for ScheduledTasks {
    open spec fn obeys_from_spec() -> bool {
        true
    }

    open spec fn from_spec(t: HomaLiteTask) -> ScheduledTasks {
        ScheduledTasks::HomaLiteTask(t)
    }
}

/// A mock task that finishes with some weight left finishes with any larger
/// weight left, and all mock tasks use the same weight whatever is left.
pub proof fn lemma_mock_dispatch_monotone(w1: Weight, w2: Weight)
    requires
        w1.ref_time <= w2.ref_time,
    ensures
        spec_mock_dispatch(w1).finished ==> spec_mock_dispatch(w2).finished,
        spec_mock_dispatch(w1).used_weight == spec_mock_dispatch(w2).used_weight,
{
}

/// Reads the relay chain block number from the storage entry under
/// `relay_block_key()`.
pub struct MockBlockNumberProvider;

impl MockBlockNumberProvider {
    /// The block number that the stored entry encodes.
    pub fn current_block_number(stored: &Option<Vec<u8>>) -> (n: u32)
        requires
            stored is Some,
            stored->0@.len() >= 4,
        ensures
            n == scale_value_u32(stored->0@),
    {
        match stored {
            Some(bytes) => {
                let decoded = scale_decode_u32(bytes.as_slice());
                match decoded {
                    Some(n) => n,
                    None => 0,
                }
            },
            None => 0,
        }
    }
}

/// The state a test starts from: the block it starts at and the storage it
/// starts with.
pub struct TestGenesis {
    pub block_number: u64,
    pub storage: Vec<(Vec<u8>, Vec<u8>)>,
}

/// Builds the state that each idle scheduler test starts from.
#[derive(Default)]
pub struct ExtBuilder;

impl ExtBuilder {
    /// Block one, with relay chain block zero stored.
    pub fn build(self) -> (g: TestGenesis)
        ensures
            g.block_number == 1,
            g.storage@.len() == 1,
            g.storage@[0].0@ == Seq::new(32, |i: int| 0u8),
            g.storage@[0].1@ == scale_bytes_u32(0),
    {
        let mut storage: Vec<(Vec<u8>, Vec<u8>)> = Vec::new();
        storage.push((relay_block_key(), scale_encode_u32(0)));
        TestGenesis { block_number: 1, storage }
    }
}

/// Every mock task reports success whatever weight is left, uses one million
/// units of computation time and no proof size, and is finished exactly when
/// at least one million units of computation time are left.
pub proof fn lemma_mock_dispatch_outcome(w: Weight)
    ensures
        spec_mock_dispatch(w).result == Ok::<(), DispatchError>(()),
        spec_mock_dispatch(w).used_weight.ref_time == 1_000_000,
        spec_mock_dispatch(w).used_weight.proof_size == 0,
        spec_mock_dispatch(w).finished <==> w.ref_time >= 1_000_000,
{
}

/// Encoding the number that four bytes decode to gives back those bytes.
pub proof fn lemma_scale_u32_bytes_round_trip(bytes: Seq<u8>)
    requires
        bytes.len() == 4,
    ensures
        scale_bytes_u32(scale_value_u32(bytes)) == bytes,
{
    let b0 = bytes[0] as int;
    let b1 = bytes[1] as int;
    let b2 = bytes[2] as int;
    let b3 = bytes[3] as int;
    let v: int = b0 + 256 * b1 + 65536 * b2 + 16777216 * b3;
    assert(v % 256 == b0 && (v / 256) % 256 == b1 && (v / 65536) % 256 == b2 && v / 16777216
        == b3 && 0 <= v < 0x1_0000_0000) by (nonlinear_arith)
        requires
            0 <= b0 < 256,
            0 <= b1 < 256,
            0 <= b2 < 256,
            0 <= b3 < 256,
            v == b0 + 256 * b1 + 65536 * b2 + 16777216 * b3,
    ;
    let n = scale_value_u32(bytes);
    assert(n == v);
    assert(scale_bytes_u32(n) =~= bytes);
}

} // verus!
