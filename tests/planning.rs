use pmpp_on_the_web::dispatch::{
    input_sizes, plan_layout, record_commands, BindingSpec, BufferSpec, Command, Group, Usage,
};
use pmpp_on_the_web::grid::{next_multiple_of, workgroups_for};
use pmpp_on_the_web::matrix::{plan_matmul, MatmulError, MatmulPlan, MatmulStrategy, Matrix};
use pmpp_on_the_web::session::{elapsed_ticks, read_timestamps, start, step, Action, DispatchError, Event, Stage};

fn square() -> Matrix<f32> {
    Matrix::new(vec![0.0, 1.0, 2.0, 3.0], 2, 2)
}

#[test]
fn workgroups_cover_ten_thousand_items() {
    assert_eq!(workgroups_for(10_000, 256), 40);
}

#[test]
fn workgroups_on_exact_and_tail_counts() {
    assert_eq!(workgroups_for(0, 256), 0);
    assert_eq!(workgroups_for(256, 256), 1);
    assert_eq!(workgroups_for(257, 256), 2);
    assert_eq!(workgroups_for(1, 1), 1);
    assert_eq!(workgroups_for(u32::MAX, 1), u32::MAX);
    assert_eq!(workgroups_for(u32::MAX, 2), 1 << 31);
}

#[test]
fn rounding_up_to_a_multiple() {
    assert_eq!(next_multiple_of(0, 32), 0);
    assert_eq!(next_multiple_of(2, 32), 32);
    assert_eq!(next_multiple_of(32, 32), 32);
    assert_eq!(next_multiple_of(33, 32), 64);
    assert_eq!(next_multiple_of(10_000, 256), 10_240);
}

#[test]
fn square_product_plan_by_row() {
    let m = square();
    let plan = plan_matmul(&m, &m, MatmulStrategy::ByRow).unwrap();
    assert_eq!(
        plan,
        MatmulPlan {
            left_width: 2,
            right_width: 2,
            grid: (32, 1, 1),
            output_len: 4,
            result_width: 2,
            result_height: 2,
        }
    );
}

#[test]
fn square_product_plan_by_col() {
    let m = square();
    let by_row = plan_matmul(&m, &m, MatmulStrategy::ByRow).unwrap();
    let by_col = plan_matmul(&m, &m, MatmulStrategy::ByCol).unwrap();
    assert_eq!(by_row, by_col);
}

#[test]
fn square_product_assembles_read_back_entries() {
    let m = square();
    let plan = plan_matmul(&m, &m, MatmulStrategy::ByCol).unwrap();
    let product = plan.assemble(vec![2.0f32, 3.0, 6.0, 11.0]).unwrap();
    assert_eq!(product, Matrix::new(vec![2.0, 3.0, 6.0, 11.0], 2, 2));
}

#[test]
fn assemble_refuses_wrong_entry_count() {
    let m = square();
    let plan = plan_matmul(&m, &m, MatmulStrategy::ByRow).unwrap();
    assert_eq!(plan.assemble(vec![2.0f32, 3.0, 6.0]), None);
    assert_eq!(plan.assemble(vec![0.0f32; 5]), None);
}

#[test]
fn rectangular_product_plans() {
    // 2 rows of 3 times 3 rows of 40.
    let left = Matrix::new(vec![1.0f32; 6], 3, 2);
    let right = Matrix::new(vec![1.0f32; 120], 40, 3);
    let by_row = plan_matmul(&left, &right, MatmulStrategy::ByRow).unwrap();
    let by_col = plan_matmul(&left, &right, MatmulStrategy::ByCol).unwrap();
    assert_eq!(by_row.grid, (32, 1, 1));
    assert_eq!(by_col.grid, (64, 1, 1));
    assert_eq!(by_row.output_len, 80);
    assert_eq!((by_row.result_width, by_row.result_height), (40, 2));
    assert_eq!((by_row.left_width, by_row.right_width), (3, 40));
}

#[test]
fn mismatched_shapes_are_rejected_both_ways() {
    let left = Matrix::new(vec![1.0f32; 6], 3, 2);
    let right = Matrix::new(vec![1.0f32; 4], 2, 2);
    assert_eq!(
        plan_matmul(&left, &right, MatmulStrategy::ByRow),
        Err(MatmulError::DimensionMismatch)
    );
    assert_eq!(
        plan_matmul(&left, &right, MatmulStrategy::ByCol),
        Err(MatmulError::DimensionMismatch)
    );
}

#[test]
fn empty_matrices_multiply() {
    let left: Matrix<f32> = Matrix::new(vec![], 0, 3);
    let right: Matrix<f32> = Matrix::new(vec![], 5, 0);
    let plan = plan_matmul(&left, &right, MatmulStrategy::ByCol).unwrap();
    assert_eq!(plan.output_len, 15);
    assert_eq!(plan.grid, (32, 1, 1));
}

fn usage(storage: bool, copy_src: bool, copy_dst: bool, map_read: bool, query: bool) -> Usage {
    Usage { storage, copy_src, copy_dst, map_read, query_resolve: query }
}

#[test]
fn layout_of_matrix_product_inputs() {
    let layout = plan_layout(&vec![16, 4, 16, 4], 4, 4);
    assert_eq!(layout.inputs.len(), 4);
    let rw = |index| BindingSpec { index, read_only: false };
    assert_eq!(layout.input_bindings, vec![rw(0), rw(1), rw(2), rw(3)]);
    assert_eq!(layout.inputs[1], BufferSpec { size: 4, usage: usage(true, true, true, false, false) });
    assert_eq!(layout.inputs[2].size, 16);
    assert_eq!(layout.output, BufferSpec { size: 16, usage: usage(true, false, true, true, false) });
    assert_eq!(layout.output_binding, rw(0));
    assert_eq!(layout.query, BufferSpec { size: 16, usage: usage(false, true, false, false, true) });
    assert_eq!(layout.staging, BufferSpec { size: 16, usage: usage(false, false, true, true, false) });
}

#[test]
fn layout_of_ten_thousand_floats() {
    let layout = plan_layout(&vec![40_000], 10_000, 4);
    assert_eq!(layout.output.size, 40_000);
    assert_eq!(layout.inputs[0].size, 40_000);
}

#[test]
fn layout_with_no_inputs() {
    let layout = plan_layout(&vec![], 0, 8);
    assert!(layout.inputs.is_empty());
    assert!(layout.input_bindings.is_empty());
    assert_eq!(layout.output.size, 0);
}

#[test]
fn layouts_repeat_for_equal_requests() {
    assert_eq!(plan_layout(&vec![8, 12], 3, 4), plan_layout(&vec![8, 12], 3, 4));
    assert_eq!(record_commands(true, (40, 1, 1)), record_commands(true, (40, 1, 1)));
}

#[test]
fn byte_views_are_sized_in_order() {
    let a = [1u8, 2, 3];
    let b = [0u8; 16];
    let views: Vec<&[u8]> = vec![&a, &b, &[]];
    assert_eq!(input_sizes(&views), vec![3, 16, 0]);
}

#[test]
fn commands_with_timestamps() {
    assert_eq!(
        record_commands(true, (40, 2, 3)),
        vec![
            Command::WriteTimestamp(0),
            Command::BeginComputePass,
            Command::BindGroup { slot: 0, group: Group::Inputs },
            Command::BindGroup { slot: 1, group: Group::Output },
            Command::Dispatch(40, 2, 3),
            Command::EndComputePass,
            Command::WriteTimestamp(1),
            Command::ResolveTimestamps,
            Command::CopyQueryToStaging(16),
        ]
    );
}

#[test]
fn commands_without_timestamps() {
    assert_eq!(
        record_commands(false, (7, 1, 1)),
        vec![
            Command::BeginComputePass,
            Command::BindGroup { slot: 0, group: Group::Inputs },
            Command::BindGroup { slot: 1, group: Group::Output },
            Command::Dispatch(7, 1, 1),
            Command::EndComputePass,
            Command::CopyQueryToStaging(16),
        ]
    );
}

#[test]
fn session_runs_to_completion() {
    let (stage, action) = start();
    assert_eq!((stage, action), (Stage::AwaitAdapter, Action::RequestAdapter));
    let (stage, action) = step(stage, Event::AdapterFound { timestamp_query: true });
    assert_eq!(action, Action::RequestDevice { timestamps: true });
    let (stage, action) = step(stage, Event::DeviceGranted);
    assert_eq!(action, Action::Encode { timestamps: true });
    let (stage, action) = step(stage, Event::Submitted);
    assert_eq!(action, Action::MapAndWait);
    let (stage, action) = step(stage, Event::MapsResolved { output_ok: true, query_ok: true });
    assert_eq!((stage, action), (Stage::Done, Action::Extract { timestamps: true }));
}

#[test]
fn session_without_timestamp_queries() {
    let (stage, _) = start();
    let (stage, action) = step(stage, Event::AdapterFound { timestamp_query: false });
    assert_eq!(action, Action::RequestDevice { timestamps: false });
    let (stage, action) = step(stage, Event::DeviceGranted);
    assert_eq!(action, Action::Encode { timestamps: false });
    let (stage, _) = step(stage, Event::Submitted);
    let (_, action) = step(stage, Event::MapsResolved { output_ok: true, query_ok: true });
    assert_eq!(action, Action::Extract { timestamps: false });
}

#[test]
fn session_failures_name_their_stage() {
    let fail = |e: DispatchError| (Stage::Failed(e), Action::Fail(e));
    assert_eq!(step(Stage::AwaitAdapter, Event::AdapterMissing), fail(DispatchError::NoAdapter));
    assert_eq!(
        step(Stage::AwaitDevice { timestamps: true }, Event::DeviceRefused),
        fail(DispatchError::DeviceCreationFailed)
    );
    assert_eq!(
        step(Stage::Encoding { timestamps: false }, Event::ShaderRejected),
        fail(DispatchError::ShaderCompilationFailed)
    );
    let waiting = Stage::AwaitReadback { timestamps: true };
    assert_eq!(
        step(waiting, Event::MapsResolved { output_ok: false, query_ok: true }),
        fail(DispatchError::BufferMapFailed)
    );
    assert_eq!(
        step(waiting, Event::MapsResolved { output_ok: true, query_ok: false }),
        fail(DispatchError::BufferMapFailed)
    );
}

#[test]
fn session_ignores_events_out_of_turn() {
    assert_eq!(step(Stage::AwaitAdapter, Event::Submitted), (Stage::AwaitAdapter, Action::Ignore));
    assert_eq!(step(Stage::Done, Event::AdapterMissing), (Stage::Done, Action::Ignore));
    let failed = Stage::Failed(DispatchError::NoAdapter);
    assert_eq!(step(failed, Event::DeviceGranted), (failed, Action::Ignore));
}

#[test]
fn elapsed_ticks_between_timestamps() {
    assert_eq!(elapsed_ticks(true, 100, 350), Some(250));
    assert_eq!(elapsed_ticks(true, 5, 5), Some(0));
    assert_eq!(elapsed_ticks(true, 9, 3), None);
    assert_eq!(elapsed_ticks(false, 100, 350), None);
}

#[test]
fn mismatch_rejected_however_large() {
    // A left matrix with no columns and usize::MAX rows holds no entries.
    let left: Matrix<f32> = Matrix::new(vec![], 0, usize::MAX);
    let right = Matrix::new(vec![1.0f32; 4], 2, 2);
    assert_eq!(
        plan_matmul(&left, &right, MatmulStrategy::ByRow),
        Err(MatmulError::DimensionMismatch)
    );
    assert_eq!(
        plan_matmul(&left, &right, MatmulStrategy::ByCol),
        Err(MatmulError::DimensionMismatch)
    );
}

#[test]
fn timestamps_read_little_endian() {
    let mut bytes = vec![0u8; 16];
    bytes[0] = 0x10;
    bytes[1] = 0x02;
    bytes[8] = 0xff;
    bytes[15] = 0x01;
    assert_eq!(read_timestamps(&bytes), Some((0x0210, 0x0100_0000_0000_00ff)));
    assert_eq!(read_timestamps(&[0xffu8; 16]), Some((u64::MAX, u64::MAX)));
}

#[test]
fn timestamps_need_sixteen_bytes() {
    assert_eq!(read_timestamps(&[0u8; 15]), None);
    assert_eq!(read_timestamps(&[]), None);
    assert_eq!(read_timestamps(&[0u8; 24]), None);
}
