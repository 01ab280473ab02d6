use vstd::prelude::*;

verus! {

/// Bytes of the buffer that the two timestamps are resolved into: two
/// 8-byte counter values.
pub const QUERY_BYTES: u64 = 16;

/// How a GPU buffer may be used.
#[derive(Debug, PartialEq, Eq, Clone, Copy)]
pub struct Usage {
    pub storage: bool,
    pub copy_src: bool,
    pub copy_dst: bool,
    pub map_read: bool,
    pub query_resolve: bool,
}

/// A buffer to allocate: its size in bytes and its usage.
#[derive(Debug, PartialEq, Eq, Clone, Copy)]
pub struct BufferSpec {
    pub size: u64,
    pub usage: Usage,
}

/// An input buffer: filled with its input's bytes, bound for the kernel, and
/// a copy source and target.
pub open spec fn input_usage() -> Usage {
    Usage { storage: true, copy_src: true, copy_dst: true, map_read: false, query_resolve: false }
}

/// The output buffer: bound for the kernel, a copy target, readable from the host.
pub open spec fn output_usage() -> Usage {
    Usage { storage: true, copy_src: false, copy_dst: true, map_read: true, query_resolve: false }
}

/// The buffer that timestamps are resolved into, then copied out of.
pub open spec fn query_usage() -> Usage {
    Usage { storage: false, copy_src: true, copy_dst: false, map_read: false, query_resolve: true }
}

/// The host-readable copy of the timestamps.
pub open spec fn staging_usage() -> Usage {
    Usage { storage: false, copy_src: false, copy_dst: true, map_read: true, query_resolve: false }
}

/// Where the kernel sees a buffer inside its bind group, and whether the
/// kernel may only read it.
#[derive(Debug, PartialEq, Eq, Clone, Copy)]
pub struct BindingSpec {
    pub index: u32,
    pub read_only: bool,
}

/// A read-write storage binding at `index`: every buffer is bound so, since
/// a kernel may write its inputs in place.
pub open spec fn storage_binding(index: int) -> BindingSpec {
    BindingSpec { index: index as u32, read_only: false }
}

/// Every buffer of one dispatch and where the kernel sees them.
#[derive(Debug, PartialEq, Eq, Clone)]
pub struct DispatchLayout {
    /// One buffer per input, in input order.
    pub inputs: Vec<BufferSpec>,
    /// The binding of each input buffer in the input group.
    pub input_bindings: Vec<BindingSpec>,
    pub output: BufferSpec,
    /// The binding of the output buffer in the output group.
    pub output_binding: BindingSpec,
    pub query: BufferSpec,
    pub staging: BufferSpec,
}

/// The layout is the one laid out for inputs of `input_sizes` bytes and an
/// output of `output_bytes` bytes.
pub open spec fn layout_for(l: DispatchLayout, input_sizes: Seq<u64>, output_bytes: int) -> bool {
    &&& l.inputs@.len() == input_sizes.len()
    &&& l.input_bindings@.len() == input_sizes.len()
    &&& forall|i: int|
        #![trigger l.inputs@[i]]
        #![trigger l.input_bindings@[i]]
        0 <= i < input_sizes.len() ==> l.inputs@[i] == (BufferSpec {
            size: input_sizes[i],
            usage: input_usage(),
        }) && l.input_bindings@[i] == storage_binding(i)
    &&& l.output == (BufferSpec { size: output_bytes as u64, usage: output_usage() })
    &&& l.output_binding == storage_binding(0)
    &&& l.query == (BufferSpec { size: QUERY_BYTES, usage: query_usage() })
    &&& l.staging == (BufferSpec { size: QUERY_BYTES, usage: staging_usage() })
}

/// Lays out the buffers of one dispatch: one per input, sized to its bytes and
/// bound at its own position; an output of `output_len` elements of
/// `element_size` bytes, bound at 0 in its group; and the two timestamp buffers.
pub fn plan_layout(input_sizes: &Vec<u64>, output_len: u64, element_size: u64) -> (r:
    DispatchLayout)
    requires
        input_sizes@.len() <= u32::MAX,
        output_len * element_size <= u64::MAX,
    ensures
        layout_for(r, input_sizes@, output_len * element_size),
{
    let mut inputs: Vec<BufferSpec> = Vec::new();
    let mut input_bindings: Vec<BindingSpec> = Vec::new();
    let n: usize = input_sizes.len();
    for i in 0..n
        invariant
            n == input_sizes@.len(),
            n <= u32::MAX,
            inputs@.len() == i,
            input_bindings@.len() == i,
            forall|j: int|
                #![trigger inputs@[j]]
                #![trigger input_bindings@[j]]
                0 <= j < i ==> inputs@[j] == (BufferSpec {
                    size: input_sizes@[j],
                    usage: input_usage(),
                }) && input_bindings@[j] == storage_binding(j),
    {
        inputs.push(
            BufferSpec {
                size: input_sizes[i],
                usage: Usage {
                    storage: true,
                    copy_src: true,
                    copy_dst: true,
                    map_read: false,
                    query_resolve: false,
                },
            },
        );
        input_bindings.push(BindingSpec { index: i as u32, read_only: false });
    }
    DispatchLayout {
        inputs,
        input_bindings,
        output: BufferSpec {
            size: output_len * element_size,
            usage: Usage {
                storage: true,
                copy_src: false,
                copy_dst: true,
                map_read: true,
                query_resolve: false,
            },
        },
        output_binding: BindingSpec { index: 0, read_only: false },
        query: BufferSpec {
            size: QUERY_BYTES,
            usage: Usage {
                storage: false,
                copy_src: true,
                copy_dst: false,
                map_read: false,
                query_resolve: true,
            },
        },
        staging: BufferSpec {
            size: QUERY_BYTES,
            usage: Usage {
                storage: false,
                copy_src: false,
                copy_dst: true,
                map_read: true,
                query_resolve: false,
            },
        },
    }
}

/// The byte length of each input view, in input order.
pub fn input_sizes(views: &Vec<&[u8]>) -> (r: Vec<u64>)
    requires
        forall|i: int| 0 <= i < views@.len() ==> views@[i]@.len() <= u64::MAX,
    ensures
        r@.len() == views@.len(),
        forall|i: int| 0 <= i < views@.len() ==> r@[i] == views@[i]@.len(),
{
    let mut r: Vec<u64> = Vec::new();
    for i in 0..views.len()
        invariant
            forall|j: int| 0 <= j < views@.len() ==> views@[j]@.len() <= u64::MAX,
            r@.len() == i,
            forall|j: int| 0 <= j < i ==> r@[j] == views@[j]@.len(),
    {
        r.push(views[i].len() as u64);
    }
    r
}

/// The two bind groups of a dispatch.
#[derive(Debug, PartialEq, Eq, Clone, Copy)]
pub enum Group {
    /// One binding per input buffer.
    Inputs,
    /// The single output binding.
    Output,
}

/// One step of the recorded command sequence.
#[derive(Debug, PartialEq, Eq, Clone, Copy)]
pub enum Command {
    /// Write the GPU clock into the given timestamp slot.
    WriteTimestamp(u32),
    /// Open a compute pass and bind the pipeline.
    BeginComputePass,
    /// Bind a group at a slot of the pipeline.
    BindGroup { slot: u32, group: Group },
    /// Launch this many workgroups along each axis.
    Dispatch(u32, u32, u32),
    /// Close the compute pass.
    EndComputePass,
    /// Resolve both timestamp slots into the query buffer.
    ResolveTimestamps,
    /// Copy this many bytes of the query buffer into its staging buffer.
    CopyQueryToStaging(u64),
}

/// The command sequence of one dispatch, with or without timestamps.
pub open spec fn commands_spec(timestamps: bool, grid: (u32, u32, u32)) -> Seq<Command> {
    let pass = seq![
        Command::BeginComputePass,
        Command::BindGroup { slot: 0, group: Group::Inputs },
        Command::BindGroup { slot: 1, group: Group::Output },
        Command::Dispatch(grid.0, grid.1, grid.2),
        Command::EndComputePass,
    ];
    let copy = seq![Command::CopyQueryToStaging(QUERY_BYTES)];
    if timestamps {
        seq![Command::WriteTimestamp(0)] + pass + seq![
            Command::WriteTimestamp(1),
            Command::ResolveTimestamps,
        ] + copy
    } else {
        pass + copy
    }
}

/// Records the commands of one dispatch: a timestamp before and after the
/// compute pass when timestamps are on, the grid exactly as given, and the
/// copy of the query buffer in every case.
pub fn record_commands(timestamps: bool, grid: (u32, u32, u32)) -> (r: Vec<Command>)
    ensures
        r@ == commands_spec(timestamps, grid),
{
    let mut cmds: Vec<Command> = Vec::new();
    if timestamps {
        cmds.push(Command::WriteTimestamp(0));
    }
    cmds.push(Command::BeginComputePass);
    cmds.push(Command::BindGroup { slot: 0, group: Group::Inputs });
    cmds.push(Command::BindGroup { slot: 1, group: Group::Output });
    cmds.push(Command::Dispatch(grid.0, grid.1, grid.2));
    cmds.push(Command::EndComputePass);
    if timestamps {
        cmds.push(Command::WriteTimestamp(1));
        cmds.push(Command::ResolveTimestamps);
    }
    cmds.push(Command::CopyQueryToStaging(QUERY_BYTES));
    assert(cmds@ =~= commands_spec(timestamps, grid));
    cmds
}

/// The grid reaches the GPU exactly as given: the commands launch it once,
/// and launch no other.
pub proof fn lemma_grid_passed_through(timestamps: bool, grid: (u32, u32, u32))
    ensures
        exists|i: int|
            0 <= i < commands_spec(timestamps, grid).len() && commands_spec(timestamps, grid)[i]
                == Command::Dispatch(grid.0, grid.1, grid.2),
        forall|i: int|
            0 <= i < commands_spec(timestamps, grid).len() && (
            commands_spec(timestamps, grid)[i] is Dispatch) ==> commands_spec(timestamps, grid)[i]
                == Command::Dispatch(grid.0, grid.1, grid.2),
{
    let c = commands_spec(timestamps, grid);
    let k: int = if timestamps { 4 } else { 3 };
    assert(c[k] == Command::Dispatch(grid.0, grid.1, grid.2));
}

/// Timestamps are written, first slot before the compute pass and second
/// after it, only when they are on; the query buffer is copied out either way.
pub proof fn lemma_timestamps_only_when_on(timestamps: bool, grid: (u32, u32, u32))
    ensures
        (exists|i: int|
            0 <= i < commands_spec(timestamps, grid).len() && commands_spec(timestamps, grid)[i]
                is WriteTimestamp) <==> timestamps,
        commands_spec(timestamps, grid).last() == Command::CopyQueryToStaging(QUERY_BYTES),
        timestamps ==> commands_spec(timestamps, grid)[0] == Command::WriteTimestamp(0)
            && commands_spec(timestamps, grid)[1] == Command::BeginComputePass
            && commands_spec(timestamps, grid)[5] == Command::EndComputePass
            && commands_spec(timestamps, grid)[6] == Command::WriteTimestamp(1)
            && commands_spec(timestamps, grid)[7] == Command::ResolveTimestamps,
{
    let c = commands_spec(timestamps, grid);
    if timestamps {
        assert(c[0] is WriteTimestamp);
    }
}

/// The output buffer holds exactly `output_len` whole elements: none cut off,
/// no padding after the last.
pub proof fn lemma_output_holds_exactly(
    l: DispatchLayout,
    input_sizes: Seq<u64>,
    output_len: int,
    element_size: int,
)
    requires
        layout_for(l, input_sizes, output_len * element_size),
        output_len >= 0,
        element_size > 0,
        output_len * element_size <= u64::MAX,
    ensures
        l.output.size as int % element_size == 0,
        l.output.size as int / element_size == output_len,
{
    assert((output_len * element_size) % element_size == 0) by (nonlinear_arith)
        requires
            element_size > 0,
    ;
    assert((output_len * element_size) / element_size == output_len) by (nonlinear_arith)
        requires
            element_size > 0,
    ;
}

/// The input group is bound at slot 0 and the output group at slot 1, each
/// once, both inside the compute pass and before the launch.
pub proof fn lemma_group_slots(timestamps: bool, grid: (u32, u32, u32))
    ensures
        ({
            let c = commands_spec(timestamps, grid);
            let b: int = if timestamps { 1 } else { 0 };
            &&& c[b] == Command::BeginComputePass
            &&& c[b + 1] == Command::BindGroup { slot: 0, group: Group::Inputs }
            &&& c[b + 2] == Command::BindGroup { slot: 1, group: Group::Output }
            &&& c[b + 3] == Command::Dispatch(grid.0, grid.1, grid.2)
            &&& forall|i: int|
                0 <= i < c.len() && (c[i] is BindGroup) ==> i == b + 1 || i == b + 2
        }),
{
}

/// No state carries over between dispatches: two layouts laid out for the same
/// inputs and output are the same, buffer for buffer and binding for binding.
pub proof fn lemma_layout_repeats(
    a: DispatchLayout,
    b: DispatchLayout,
    input_sizes: Seq<u64>,
    output_bytes: int,
)
    requires
        layout_for(a, input_sizes, output_bytes),
        layout_for(b, input_sizes, output_bytes),
    ensures
        a.inputs@ == b.inputs@,
        a.input_bindings@ == b.input_bindings@,
        a.output == b.output,
        a.output_binding == b.output_binding,
        a.query == b.query,
        a.staging == b.staging,
{
    assert(a.inputs@ =~= b.inputs@);
    assert(a.input_bindings@ =~= b.input_bindings@);
}

} // verus!
