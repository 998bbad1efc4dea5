//! Planning for the compute path: buffer sizing, execution-group width, and
//! the fixed command sequence one addition dispatch records and submits.

use vstd::prelude::*;
use crate::commands::{BufferId, CommandBuffer, GpuOp};
use crate::geom::{grid_1d, GridSize};

verus! {

/// Argument-table slot of the first input array.
pub const INPUT_A_SLOT: u64 = 0;

/// Argument-table slot of the second input array.
pub const INPUT_B_SLOT: u64 = 1;

/// Argument-table slot of the output array.
pub const OUTPUT_SLOT: u64 = 2;

/// Each array element is one 32-bit scalar.
pub const ELEMENT_BYTES: u64 = 4;

/// The execution-group width the dispatch uses: the pipeline-reported maximum,
/// capped by the element count so a small input still fits in one group.
pub open spec fn spec_group_width(max_threads: u64, element_count: u64) -> u64 {
    if max_threads > element_count {
        element_count
    } else {
        max_threads
    }
}

/// The grid and group extents of one addition dispatch over `element_count`
/// elements, on a pipeline that supports at most `max_threads` lanes per group.
#[derive(Clone, Copy, Debug, PartialEq, Eq, Structural)]
pub struct DispatchShape {
    pub grid: GridSize,
    pub group: GridSize,
}

/// Compute the execution-group width for one dispatch.
pub fn group_width(max_threads: u64, element_count: u64) -> (w: u64)
    ensures
        w == spec_group_width(max_threads, element_count),
        w <= max_threads,
        w <= element_count,
        max_threads >= 1 && element_count >= 1 ==> w >= 1,
{
    if max_threads > element_count {
        element_count
    } else {
        max_threads
    }
}

/// How many bytes a shared buffer of `element_count` scalars occupies.
pub fn buffer_length_bytes(element_count: u64) -> (n: u64)
    requires
        element_count * ELEMENT_BYTES <= u64::MAX,
    ensures
        n == element_count * ELEMENT_BYTES,
{
    element_count * ELEMENT_BYTES
}

/// The dispatch extents: a one-dimensional grid as wide as the element count
/// (so every element index is covered by exactly one lane), split into groups
/// no wider than the hardware allows.
pub fn dispatch_shape(max_threads: u64, element_count: u64) -> (s: DispatchShape)
    ensures
        s.grid == (GridSize { width: element_count, height: 1, depth: 1 }),
        s.group == (GridSize {
            width: spec_group_width(max_threads, element_count),
            height: 1,
            depth: 1,
        }),
        s.group.width <= max_threads,
        s.group.width <= s.grid.width,
{
    let width = group_width(max_threads, element_count);
    DispatchShape { grid: grid_1d(element_count), group: grid_1d(width) }
}

/// The fixed operation sequence of one addition dispatch: bind the compute
/// pipeline, bind the two inputs and the output at their declared slots, then
/// launch the grid.
pub open spec fn compute_pass_ops(shape: DispatchShape) -> Seq<GpuOp> {
    seq![
        GpuOp::SetComputePipeline,
        GpuOp::BindBuffer { slot: INPUT_A_SLOT, buffer: BufferId::InputA },
        GpuOp::BindBuffer { slot: INPUT_B_SLOT, buffer: BufferId::InputB },
        GpuOp::BindBuffer { slot: OUTPUT_SLOT, buffer: BufferId::Output },
        GpuOp::DispatchThreads { grid: shape.grid, group: shape.group },
    ]
}

/// Record one addition dispatch into a command buffer that is still recording.
pub fn encode_compute_pass(cb: &mut CommandBuffer, shape: DispatchShape)
    requires
        !old(cb).is_committed(),
    ensures
        final(cb).ops() == old(cb).ops() + compute_pass_ops(shape),
        !final(cb).is_committed(),
{
    cb.record(GpuOp::SetComputePipeline);
    cb.record(GpuOp::BindBuffer { slot: INPUT_A_SLOT, buffer: BufferId::InputA });
    cb.record(GpuOp::BindBuffer { slot: INPUT_B_SLOT, buffer: BufferId::InputB });
    cb.record(GpuOp::BindBuffer { slot: OUTPUT_SLOT, buffer: BufferId::Output });
    cb.record(GpuOp::DispatchThreads { grid: shape.grid, group: shape.group });
    proof {
        assert(cb.ops() =~= old(cb).ops() + compute_pass_ops(shape));
    }
}

/// Build and submit the whole addition dispatch: a fresh command buffer holding
/// exactly one compute pass over `element_count` elements, committed once. The
/// grid is as wide as the element count, so the kernel runs once per index.
pub fn build_compute_submission(max_threads: u64, element_count: u64) -> (cb: CommandBuffer)
    requires
        max_threads >= 1,
        element_count >= 1,
    ensures
        cb.is_committed(),
        cb.ops() == compute_pass_ops(
            DispatchShape {
                grid: GridSize { width: element_count, height: 1, depth: 1 },
                group: GridSize {
                    width: spec_group_width(max_threads, element_count),
                    height: 1,
                    depth: 1,
                },
            },
        ),
{
    let shape = dispatch_shape(max_threads, element_count);
    let mut cb = CommandBuffer::new();
    encode_compute_pass(&mut cb, shape);
    cb.commit();
    proof {
        assert(cb.ops() =~= compute_pass_ops(shape));
    }
    cb
}

} // verus!
