use gpu_demos::commands::{CommandBuffer, GpuOp};
use gpu_demos::geom::{GridSize, SurfaceSize};

#[test]
fn fresh_buffer_is_empty_and_recording() {
    let cb = CommandBuffer::new();
    assert_eq!(cb.len(), 0);
    assert!(!cb.submitted());
}

#[test]
fn recording_appends_in_order() {
    let mut cb = CommandBuffer::new();
    cb.record(GpuOp::SetComputePipeline);
    cb.record(GpuOp::DispatchThreads {
        grid: GridSize { width: 8, height: 1, depth: 1 },
        group: GridSize { width: 4, height: 1, depth: 1 },
    });
    cb.record(GpuOp::SetViewport { size: SurfaceSize { width: 2, height: 2 } });
    assert_eq!(cb.len(), 3);
    assert_eq!(cb.op_at(0), GpuOp::SetComputePipeline);
    assert_eq!(
        cb.op_at(1),
        GpuOp::DispatchThreads {
            grid: GridSize { width: 8, height: 1, depth: 1 },
            group: GridSize { width: 4, height: 1, depth: 1 },
        }
    );
    assert_eq!(cb.op_at(2), GpuOp::SetViewport { size: SurfaceSize { width: 2, height: 2 } });
    assert!(!cb.submitted());
}

#[test]
fn commit_freezes_the_recorded_operations() {
    let mut cb = CommandBuffer::new();
    cb.record(GpuOp::SetComputePipeline);
    cb.commit();
    assert!(cb.submitted());
    assert_eq!(cb.len(), 1);
    assert_eq!(cb.op_at(0), GpuOp::SetComputePipeline);
}
