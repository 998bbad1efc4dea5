use gpu_demos::commands::{BufferId, GpuOp};
use gpu_demos::dispatch::{
    build_compute_submission, buffer_length_bytes, dispatch_shape, group_width, ELEMENT_BYTES,
    INPUT_A_SLOT, INPUT_B_SLOT, OUTPUT_SLOT,
};
use gpu_demos::geom::GridSize;
use gpu_demos::results::{first_mismatch, verification_passed};

#[test]
fn group_width_is_capped_by_pipeline_maximum() {
    // A large input never exceeds what the pipeline reports.
    let w = group_width(256, 1024);
    assert_eq!(w, 256);
    assert!(w <= 256);
    assert!(w <= 1024);
}

#[test]
fn group_width_is_capped_by_element_count() {
    // A small input fits in one group.
    let w = group_width(1024, 3);
    assert_eq!(w, 3);
    assert!(w <= 1024);
    assert!(w <= 3);
}

#[test]
fn group_width_exact_match() {
    assert_eq!(group_width(1024, 1024), 1024);
}

#[test]
fn group_width_single_element() {
    assert_eq!(group_width(1024, 1), 1);
}

#[test]
fn buffer_length_counts_four_bytes_per_element() {
    assert_eq!(ELEMENT_BYTES, 4);
    assert_eq!(buffer_length_bytes(1024), 4096);
    assert_eq!(buffer_length_bytes(1), 4);
}

#[test]
fn dispatch_shape_covers_every_element_once() {
    let s = dispatch_shape(256, 1024);
    assert_eq!(s.grid, GridSize { width: 1024, height: 1, depth: 1 });
    assert_eq!(s.group, GridSize { width: 256, height: 1, depth: 1 });
}

#[test]
fn compute_submission_records_the_fixed_sequence() {
    let cb = build_compute_submission(256, 1024);
    assert!(cb.submitted());
    assert_eq!(cb.len(), 5);
    assert_eq!(cb.op_at(0), GpuOp::SetComputePipeline);
    assert_eq!(
        cb.op_at(1),
        GpuOp::BindBuffer { slot: INPUT_A_SLOT, buffer: BufferId::InputA }
    );
    assert_eq!(
        cb.op_at(2),
        GpuOp::BindBuffer { slot: INPUT_B_SLOT, buffer: BufferId::InputB }
    );
    assert_eq!(
        cb.op_at(3),
        GpuOp::BindBuffer { slot: OUTPUT_SLOT, buffer: BufferId::Output }
    );
    assert_eq!(
        cb.op_at(4),
        GpuOp::DispatchThreads {
            grid: GridSize { width: 1024, height: 1, depth: 1 },
            group: GridSize { width: 256, height: 1, depth: 1 },
        }
    );
}

#[test]
fn compute_slots_are_distinct() {
    assert_eq!(INPUT_A_SLOT, 0);
    assert_eq!(INPUT_B_SLOT, 1);
    assert_eq!(OUTPUT_SLOT, 2);
}

#[test]
fn first_mismatch_reports_none_when_all_match() {
    let checks = vec![true, true, true, true];
    assert_eq!(first_mismatch(&checks), None);
    assert!(verification_passed(&checks));
}

#[test]
fn first_mismatch_on_empty_input_is_none() {
    let checks: Vec<bool> = Vec::new();
    assert_eq!(first_mismatch(&checks), None);
    assert!(verification_passed(&checks));
}

#[test]
fn first_mismatch_reports_the_earliest_failure() {
    let checks = vec![true, true, false, true, false];
    assert_eq!(first_mismatch(&checks), Some(2));
    assert!(!verification_passed(&checks));
}

#[test]
fn first_mismatch_at_index_zero() {
    let checks = vec![false, true];
    assert_eq!(first_mismatch(&checks), Some(0));
    assert!(!verification_passed(&checks));
}

#[test]
fn addition_over_1024_uniform_inputs_verifies() {
    // The whole compute pipeline, with the element-wise addition standing in
    // for the kernel: 1024 elements drawn uniformly from [0, 1), summed, and
    // checked within the 1e-6 absolute tolerance. The verdict is success.
    let n: usize = 1024;
    let a: Vec<f32> = (0..n).map(|_| rand::random::<f32>()).collect();
    let b: Vec<f32> = (0..n).map(|_| rand::random::<f32>()).collect();
    let output: Vec<f32> = (0..n).map(|i| a[i] + b[i]).collect();

    let cb = build_compute_submission(1024, n as u64);
    assert!(cb.submitted());
    match cb.op_at(4) {
        GpuOp::DispatchThreads { grid, group } => {
            // One lane per element, all in one maximal group.
            assert_eq!(grid.width, 1024);
            assert_eq!(group.width, 1024);
        }
        other => panic!("expected a dispatch, found {:?}", other),
    }

    let checks: Vec<bool> = (0..n)
        .map(|i| (output[i] - (a[i] + b[i])).abs() <= 1e-6)
        .collect();
    assert_eq!(first_mismatch(&checks), None);
    assert!(verification_passed(&checks));
}

#[test]
fn a_corrupted_element_is_caught() {
    let n: usize = 64;
    let a: Vec<f32> = (0..n).map(|_| rand::random::<f32>()).collect();
    let b: Vec<f32> = (0..n).map(|_| rand::random::<f32>()).collect();
    let mut output: Vec<f32> = (0..n).map(|i| a[i] + b[i]).collect();
    output[17] += 0.5;

    let checks: Vec<bool> = (0..n)
        .map(|i| (output[i] - (a[i] + b[i])).abs() <= 1e-6)
        .collect();
    assert_eq!(first_mismatch(&checks), Some(17));
    assert!(!verification_passed(&checks));
}
