use vstd::prelude::*;

verus! {

/// Why a dispatch failed; each stage fails in its own way.
#[derive(Debug, PartialEq, Eq, Clone, Copy)]
pub enum DispatchError {
    /// No compute-capable adapter was found.
    NoAdapter,
    /// The adapter refused the logical device.
    DeviceCreationFailed,
    /// The kernel program did not compile.
    ShaderCompilationFailed,
    /// The output or the timestamp buffer could not be mapped for reading.
    BufferMapFailed,
}

/// Where one dispatch stands.
#[derive(Debug, PartialEq, Eq, Clone, Copy)]
pub enum Stage {
    /// An adapter has been asked for.
    AwaitAdapter,
    /// A device has been asked for; `timestamps` says whether the adapter
    /// offers timestamp queries inside command encoders.
    AwaitDevice { timestamps: bool },
    /// Buffers, pipeline and commands are being built and submitted.
    Encoding { timestamps: bool },
    /// The output and timestamp buffers are being mapped.
    AwaitReadback { timestamps: bool },
    /// The result can be read out.
    Done,
    /// The dispatch ended with this error.
    Failed(DispatchError),
}

/// What the GPU side reports back.
#[derive(Debug, PartialEq, Eq, Clone, Copy)]
pub enum Event {
    /// An adapter was found; `timestamp_query` says whether it offers
    /// timestamp queries inside command encoders.
    AdapterFound { timestamp_query: bool },
    AdapterMissing,
    DeviceGranted,
    DeviceRefused,
    ShaderRejected,
    /// The one command batch was submitted.
    Submitted,
    /// Both map requests have completed, each with success or not.
    MapsResolved { output_ok: bool, query_ok: bool },
}

/// What the GPU side is to do next.
#[derive(Debug, PartialEq, Eq, Clone, Copy)]
pub enum Action {
    /// Ask for a high-performance adapter.
    RequestAdapter,
    /// Ask for a device with every feature of the adapter, and with timestamp
    /// queries inside command encoders when `timestamps` says the adapter
    /// offers them.
    RequestDevice { timestamps: bool },
    /// Compile the kernel, allocate and bind the buffers, record the commands
    /// (with timestamps or not) and submit them.
    Encode { timestamps: bool },
    /// Map the output and timestamp buffers and wait for the device.
    MapAndWait,
    /// Copy the output out, and report the elapsed time when timestamps are on.
    Extract { timestamps: bool },
    /// Stop with this error.
    Fail(DispatchError),
    /// The event does not belong to this stage: nothing to do.
    Ignore,
}

/// The next stage and action after `event` arrives at `stage`.
pub open spec fn step_spec(stage: Stage, event: Event) -> (Stage, Action) {
    match (stage, event) {
        (Stage::AwaitAdapter, Event::AdapterFound { timestamp_query }) => (
            Stage::AwaitDevice { timestamps: timestamp_query },
            Action::RequestDevice { timestamps: timestamp_query },
        ),
        (Stage::AwaitAdapter, Event::AdapterMissing) => (
            Stage::Failed(DispatchError::NoAdapter),
            Action::Fail(DispatchError::NoAdapter),
        ),
        (Stage::AwaitDevice { timestamps }, Event::DeviceGranted) => (
            Stage::Encoding { timestamps },
            Action::Encode { timestamps },
        ),
        (Stage::AwaitDevice { .. }, Event::DeviceRefused) => (
            Stage::Failed(DispatchError::DeviceCreationFailed),
            Action::Fail(DispatchError::DeviceCreationFailed),
        ),
        (Stage::Encoding { .. }, Event::ShaderRejected) => (
            Stage::Failed(DispatchError::ShaderCompilationFailed),
            Action::Fail(DispatchError::ShaderCompilationFailed),
        ),
        (Stage::Encoding { timestamps }, Event::Submitted) => (
            Stage::AwaitReadback { timestamps },
            Action::MapAndWait,
        ),
        (Stage::AwaitReadback { timestamps }, Event::MapsResolved { output_ok, query_ok }) => {
            if output_ok && query_ok {
                (Stage::Done, Action::Extract { timestamps })
            } else {
                (
                    Stage::Failed(DispatchError::BufferMapFailed),
                    Action::Fail(DispatchError::BufferMapFailed),
                )
            }
        },
        _ => (stage, Action::Ignore),
    }
}

/// The first stage of a dispatch, and its first action.
pub fn start() -> (r: (Stage, Action))
    ensures
        r == (Stage::AwaitAdapter, Action::RequestAdapter),
{
    (Stage::AwaitAdapter, Action::RequestAdapter)
}

/// Moves a dispatch on by one event: every failure ends it at once with the
/// error of the stage it came in, and the readback succeeds only when both
/// buffers were mapped.
pub fn step(stage: Stage, event: Event) -> (r: (Stage, Action))
    ensures
        r == step_spec(stage, event),
{
    match (stage, event) {
        (Stage::AwaitAdapter, Event::AdapterFound { timestamp_query }) => (
            Stage::AwaitDevice { timestamps: timestamp_query },
            Action::RequestDevice { timestamps: timestamp_query },
        ),
        (Stage::AwaitAdapter, Event::AdapterMissing) => (
            Stage::Failed(DispatchError::NoAdapter),
            Action::Fail(DispatchError::NoAdapter),
        ),
        (Stage::AwaitDevice { timestamps }, Event::DeviceGranted) => (
            Stage::Encoding { timestamps },
            Action::Encode { timestamps },
        ),
        (Stage::AwaitDevice { .. }, Event::DeviceRefused) => (
            Stage::Failed(DispatchError::DeviceCreationFailed),
            Action::Fail(DispatchError::DeviceCreationFailed),
        ),
        (Stage::Encoding { .. }, Event::ShaderRejected) => (
            Stage::Failed(DispatchError::ShaderCompilationFailed),
            Action::Fail(DispatchError::ShaderCompilationFailed),
        ),
        (Stage::Encoding { timestamps }, Event::Submitted) => (
            Stage::AwaitReadback { timestamps },
            Action::MapAndWait,
        ),
        (Stage::AwaitReadback { timestamps }, Event::MapsResolved { output_ok, query_ok }) => {
            if output_ok && query_ok {
                (Stage::Done, Action::Extract { timestamps })
            } else {
                (
                    Stage::Failed(DispatchError::BufferMapFailed),
                    Action::Fail(DispatchError::BufferMapFailed),
                )
            }
        },
        _ => (stage, Action::Ignore),
    }
}

/// An adapter without timestamp queries is no error: the dispatch goes
/// through the same stages with or without them, and only what is asked of the
/// device and done at the end depends on it.
pub proof fn lemma_timestamps_optional(ts: bool, output_ok: bool, query_ok: bool)
    ensures
        step_spec(Stage::AwaitAdapter, Event::AdapterFound { timestamp_query: ts }) == (
            Stage::AwaitDevice { timestamps: ts },
            Action::RequestDevice { timestamps: ts },
        ),
        step_spec(Stage::AwaitDevice { timestamps: ts }, Event::DeviceGranted).1 == (Action::Encode {
            timestamps: ts,
        }),
        step_spec(Stage::Encoding { timestamps: ts }, Event::Submitted).1 == Action::MapAndWait,
        step_spec(
            Stage::AwaitReadback { timestamps: ts },
            Event::MapsResolved { output_ok, query_ok },
        ).0 == step_spec(
            Stage::AwaitReadback { timestamps: !ts },
            Event::MapsResolved { output_ok, query_ok },
        ).0,
{
}

/// The value of `s` read as an unsigned integer, least significant byte first.
pub open spec fn le_value(s: Seq<u8>) -> nat
    decreases s.len(),
{
    if s.len() == 0 {
        0
    } else {
        s[0] as nat + 256 * le_value(s.drop_first())
    }
}

/// `256` to the power `n`.
pub open spec fn radix(n: nat) -> nat
    decreases n,
{
    if n == 0 {
        1
    } else {
        256 * radix((n - 1) as nat)
    }
}

proof fn lemma_le_value_bound(s: Seq<u8>)
    ensures
        le_value(s) < radix(s.len()),
    decreases s.len(),
{
    if s.len() > 0 {
        lemma_le_value_bound(s.drop_first());
    }
}

/// Reads the 8 bytes of `b` from `start` as a little-endian integer.
fn read_le_u64(b: &[u8], start: usize) -> (r: u64)
    requires
        start + 8 <= b@.len(),
    ensures
        r == le_value(b@.subrange(start as int, start + 8)),
{
    let len: usize = b.len();
    let mut r: u64 = 0;
    let mut k: usize = 8;
    proof {
        assert(b@.subrange(start + 8, start + 8) =~= Seq::<u8>::empty());
    }
    while k > 0
        invariant
            start + 8 <= b@.len(),
            b@.len() == len,
            k <= 8,
            r == le_value(b@.subrange(start + k, start + 8)),
        decreases k,
    {
        let ghost tail = b@.subrange(start + k, start + 8);
        let ghost full = b@.subrange(start + k - 1, start + 8);
        proof {
            assert(full.drop_first() =~= tail);
            lemma_le_value_bound(tail);
            reveal_with_fuel(radix, 9);
            assert(radix(7) == 0x100_0000_0000_0000);
            assert(radix(tail.len()) <= radix(7));
        }
        r = b[start + k - 1] as u64 + 256 * r;
        k = k - 1;
    }
    r
}

/// The start and end ticks in the 16 bytes the two timestamps are resolved
/// into, each 8 bytes, least significant first; `None` for any other length.
pub fn read_timestamps(b: &[u8]) -> (r: Option<(u64, u64)>)
    ensures
        r is Some <==> b@.len() == 16,
        r matches Some(p) ==> p.0 == le_value(b@.subrange(0, 8)) && p.1 == le_value(
            b@.subrange(8, 16),
        ),
{
    if b.len() != 16 {
        return None;
    }
    Some((read_le_u64(b, 0), read_le_u64(b, 8)))
}

/// GPU clock ticks between the two timestamps: `None` when timestamps were
/// not on, or when the end reads earlier than the start.
pub fn elapsed_ticks(timestamps: bool, start_tick: u64, end_tick: u64) -> (r: Option<u64>)
    ensures
        r == (if timestamps && start_tick <= end_tick {
            Some((end_tick - start_tick) as u64)
        } else {
            None
        }),
{
    if timestamps && start_tick <= end_tick {
        Some(end_tick - start_tick)
    } else {
        None
    }
}

} // verus!
