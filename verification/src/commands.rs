//! A model of the one-shot GPU command buffer both demo programs submit.
//!
//! A command buffer starts out recording, accumulates an append-only sequence
//! of operations, and is committed exactly once; after the commit nothing may
//! be recorded into it and it may not be committed again. The fields are
//! private so that every mutation goes through the methods, whose contracts
//! enforce that protocol.

use vstd::prelude::*;
use crate::geom::{GridSize, SurfaceSize};

verus! {

/// A handle naming one of the demo programs' GPU-visible buffers.
#[derive(Clone, Copy, Debug, PartialEq, Eq, Structural)]
pub enum BufferId {
    /// First compute input array.
    InputA,
    /// Second compute input array.
    InputB,
    /// Compute output array.
    Output,
    /// The three static triangle vertex records.
    TriangleVertices,
    /// The two-element per-frame viewport size.
    ViewportSize,
}

/// One operation recorded into a command buffer.
#[derive(Clone, Copy, Debug, PartialEq, Eq, Structural)]
pub enum GpuOp {
    /// Bind the compiled compute pipeline.
    SetComputePipeline,
    /// Bind the compiled render pipeline.
    SetRenderPipeline,
    /// Bind a buffer at an argument-table slot.
    BindBuffer { slot: u64, buffer: BufferId },
    /// Set the viewport rectangle to the full drawable surface.
    SetViewport { size: SurfaceSize },
    /// Launch the compute grid, split into execution groups.
    DispatchThreads { grid: GridSize, group: GridSize },
    /// Draw `vertex_count` vertices starting at `vertex_start` as triangles.
    DrawTriangles { vertex_start: u64, vertex_count: u64 },
    /// Schedule the acquired drawable surface for presentation.
    PresentDrawable,
}

/// A single-use recorded sequence of GPU operations.
pub struct CommandBuffer {
    ops: Vec<GpuOp>,
    committed: bool,
}

impl CommandBuffer {
    /// The operations recorded so far, oldest first.
    pub closed spec fn ops(self) -> Seq<GpuOp> {
        self.ops@
    }

    /// Whether the buffer has been submitted to the queue.
    pub closed spec fn is_committed(self) -> bool {
        self.committed
    }

    /// A fresh command buffer: empty and still recording.
    pub fn new() -> (cb: CommandBuffer)
        ensures
            cb.ops() == Seq::<GpuOp>::empty(),
            !cb.is_committed(),
    {
        CommandBuffer { ops: Vec::new(), committed: false }
    }

    /// Append one operation. Only a buffer that is still recording accepts it.
    pub fn record(&mut self, op: GpuOp)
        requires
            !old(self).is_committed(),
        ensures
            final(self).ops() == old(self).ops().push(op),
            !final(self).is_committed(),
    {
        self.ops.push(op);
    }

    /// Submit the buffer. The recorded operations are frozen and the buffer
    /// can never be committed again.
    pub fn commit(&mut self)
        requires
            !old(self).is_committed(),
        ensures
            final(self).is_committed(),
            final(self).ops() == old(self).ops(),
    {
        self.committed = true;
    }

    /// How many operations have been recorded.
    pub fn len(&self) -> (n: usize)
        ensures
            n == self.ops().len(),
    {
        self.ops.len()
    }

    /// The operation at position `i`.
    pub fn op_at(&self, i: usize) -> (op: GpuOp)
        requires
            i < self.ops().len(),
        ensures
            op == self.ops()[i as int],
    {
        self.ops[i]
    }

    /// Whether the buffer has been submitted, as an executable query.
    pub fn submitted(&self) -> (b: bool)
        ensures
            b == self.is_committed(),
    {
        self.committed
    }
}

} // verus!
