//! The render path: the static triangle data, the pipeline's vertex input
//! layout, the per-frame buffer state, and the command sequence one frame
//! records and submits.

use vstd::prelude::*;
use crate::commands::{BufferId, CommandBuffer, GpuOp};
use crate::geom::{Rgba, SurfaceSize, Vertex, rgba_wf, vertex_wf};

verus! {

/// Argument-table slot of the triangle vertex buffer.
pub const VERTEX_BUFFER_SLOT: u64 = 0;

/// Argument-table slot of the per-frame viewport size buffer.
pub const VIEWPORT_BUFFER_SLOT: u64 = 1;

/// Bytes of one vertex position: two 32-bit scalars.
pub const POSITION_BYTES: u64 = 8;

/// Bytes of one vertex color: four 32-bit scalars.
pub const COLOR_BYTES: u64 = 16;

/// Bytes from one vertex record to the next.
pub const VERTEX_STRIDE: u64 = 24;

/// The three vertex records the triangle is drawn from, fixed at startup:
/// a red right corner, a green left corner, and a blue top corner.
pub open spec fn spec_triangle_vertices() -> Seq<Vertex> {
    seq![
        Vertex { x: 250i32, y: -250i32, color: Rgba { r: 1000, g: 0, b: 0, a: 1000 } },
        Vertex { x: -250i32, y: -250i32, color: Rgba { r: 0, g: 1000, b: 0, a: 1000 } },
        Vertex { x: 0i32, y: 250i32, color: Rgba { r: 0, g: 0, b: 1000, a: 1000 } },
    ]
}

/// The background color every frame clears to.
pub fn background_color() -> (c: Rgba)
    ensures
        c == (Rgba { r: 0, g: 500, b: 700, a: 1000 }),
        rgba_wf(c),
{
    Rgba { r: 0, g: 500, b: 700, a: 1000 }
}

/// Build the triangle's vertex records.
pub fn triangle_vertices() -> (vs: Vec<Vertex>)
    ensures
        vs@ == spec_triangle_vertices(),
{
    let mut vs: Vec<Vertex> = Vec::new();
    vs.push(Vertex { x: 250, y: -250, color: Rgba { r: 1000, g: 0, b: 0, a: 1000 } });
    vs.push(Vertex { x: -250, y: -250, color: Rgba { r: 0, g: 1000, b: 0, a: 1000 } });
    vs.push(Vertex { x: 0, y: 250, color: Rgba { r: 0, g: 0, b: 1000, a: 1000 } });
    proof {
        assert(vs@ =~= spec_triangle_vertices());
    }
    vs
}

/// One attribute of the pipeline's vertex input layout: where it starts inside
/// a record, how many bytes it occupies, and which argument-table slot feeds it.
#[derive(Clone, Copy, Debug, PartialEq, Eq, Structural)]
pub struct VertexAttribute {
    pub offset: u64,
    pub byte_len: u64,
    pub buffer_index: u64,
}

/// The pipeline's vertex input layout: its attributes in offset order and the
/// per-vertex stride.
pub struct VertexLayout {
    pub attributes: Vec<VertexAttribute>,
    pub stride: u64,
}

/// A layout is well formed when its attributes lie in order, do not overlap,
/// and each fits inside the stride.
pub open spec fn layout_wf(l: VertexLayout) -> bool {
    &&& forall|i: int|
        0 <= i < l.attributes@.len() ==> l.attributes@[i].offset + l.attributes@[i].byte_len
            <= l.stride
    &&& forall|i: int|
        0 <= i && i + 1 < l.attributes@.len() ==> l.attributes@[i].offset
            + l.attributes@[i].byte_len <= l.attributes@[i + 1].offset
}

/// The layout the render pipeline is built with: a two-scalar position at
/// offset 0 and a four-scalar color right after it, both read from the vertex
/// buffer slot, one record per vertex.
pub fn triangle_vertex_layout() -> (l: VertexLayout)
    ensures
        l.attributes@.len() == 2,
        l.attributes@[0] == (VertexAttribute {
            offset: 0,
            byte_len: POSITION_BYTES,
            buffer_index: VERTEX_BUFFER_SLOT,
        }),
        l.attributes@[1] == (VertexAttribute {
            offset: POSITION_BYTES,
            byte_len: COLOR_BYTES,
            buffer_index: VERTEX_BUFFER_SLOT,
        }),
        l.stride == VERTEX_STRIDE,
        layout_wf(l),
        forall|i: int| 0 <= i < l.attributes@.len() ==> l.attributes@[i].buffer_index
            == VERTEX_BUFFER_SLOT,
{
    let mut attributes: Vec<VertexAttribute> = Vec::new();
    attributes.push(VertexAttribute {
        offset: 0,
        byte_len: POSITION_BYTES,
        buffer_index: VERTEX_BUFFER_SLOT,
    });
    attributes.push(VertexAttribute {
        offset: POSITION_BYTES,
        byte_len: COLOR_BYTES,
        buffer_index: VERTEX_BUFFER_SLOT,
    });
    let l = VertexLayout { attributes, stride: VERTEX_STRIDE };
    proof {
        assert forall|i: int|
            0 <= i < l.attributes@.len() implies l.attributes@[i].offset + l.attributes@[i].byte_len
            <= l.stride by {
            assert(l.attributes@.len() == 2);
            if i == 0 {
                assert(l.attributes@[0].offset + l.attributes@[0].byte_len <= l.stride);
            } else {
                assert(l.attributes@[1].offset + l.attributes@[1].byte_len <= l.stride);
            }
        }
        assert forall|i: int|
            0 <= i && i + 1 < l.attributes@.len() implies l.attributes@[i].offset
            + l.attributes@[i].byte_len <= l.attributes@[i + 1].offset by {
            assert(l.attributes@.len() == 2);
            assert(l.attributes@[0].offset + l.attributes@[0].byte_len <= l.attributes@[1].offset);
        }
    }
    l
}

/// The fixed operation sequence of one frame on a drawable of size `size`:
/// set the viewport to the full drawable, bind the render pipeline, bind the
/// vertex and viewport buffers at their declared slots, draw the one triangle,
/// and schedule the drawable for presentation.
pub open spec fn render_pass_ops(size: SurfaceSize) -> Seq<GpuOp> {
    seq![
        GpuOp::SetViewport { size },
        GpuOp::SetRenderPipeline,
        GpuOp::BindBuffer { slot: VERTEX_BUFFER_SLOT, buffer: BufferId::TriangleVertices },
        GpuOp::BindBuffer { slot: VIEWPORT_BUFFER_SLOT, buffer: BufferId::ViewportSize },
        GpuOp::DrawTriangles { vertex_start: 0, vertex_count: 3 },
        GpuOp::PresentDrawable,
    ]
}

/// The host-visible buffer contents the render path owns: the vertex records
/// copied into the vertex buffer at startup, and the viewport size buffer,
/// which stays unwritten until the first frame overwrites it.
pub struct RenderState {
    vertices: Vec<Vertex>,
    viewport: Option<SurfaceSize>,
}

impl RenderState {
    /// What the vertex buffer holds.
    pub closed spec fn vertex_view(self) -> Seq<Vertex> {
        self.vertices@
    }

    /// What the viewport buffer holds, if it has been written yet.
    pub closed spec fn viewport_view(self) -> Option<SurfaceSize> {
        self.viewport
    }

    /// The vertex buffer always holds exactly the three startup records.
    pub open spec fn wf(self) -> bool {
        self.vertex_view() == spec_triangle_vertices()
    }

    /// Allocate the render state: the vertex buffer is filled from the static
    /// records, the viewport buffer is left unwritten.
    pub fn new() -> (s: RenderState)
        ensures
            s.wf(),
            s.viewport_view() is None,
    {
        RenderState { vertices: triangle_vertices(), viewport: None }
    }

    /// Overwrite the viewport buffer with the current drawable size.
    pub fn update_viewport_buffer(&mut self, size: SurfaceSize)
        ensures
            final(self).viewport_view() == Some(size),
            final(self).vertex_view() == old(self).vertex_view(),
    {
        self.viewport = Some(size);
    }

    /// How many vertex records the vertex buffer holds.
    pub fn vertex_count(&self) -> (n: usize)
        ensures
            n == self.vertex_view().len(),
    {
        self.vertices.len()
    }

    /// The vertex record at position `i`.
    pub fn vertex_at(&self, i: usize) -> (v: Vertex)
        requires
            i < self.vertex_view().len(),
        ensures
            v == self.vertex_view()[i as int],
    {
        self.vertices[i]
    }

    /// The viewport buffer's contents, if written.
    pub fn viewport(&self) -> (v: Option<SurfaceSize>)
        ensures
            v == self.viewport_view(),
    {
        self.viewport
    }

    /// Handle one redraw request. With no drawable surface available this
    /// frame, nothing at all happens: no buffer changes and no submission.
    /// With a drawable of size `size`, the viewport buffer is overwritten with
    /// `size` before any command is recorded, and a fresh command buffer
    /// holding exactly one render pass over that size is committed.
    pub fn render_frame(&mut self, drawable: Option<SurfaceSize>) -> (cb: Option<CommandBuffer>)
        ensures
            final(self).vertex_view() == old(self).vertex_view(),
            drawable is None ==> *final(self) == *old(self) && cb is None,
            drawable matches Some(size) ==> {
                &&& final(self).viewport_view() == Some(size)
                &&& cb matches Some(c) && c.is_committed() && c.ops() == render_pass_ops(size)
            },
    {
        match drawable {
            None => None,
            Some(size) => {
                self.update_viewport_buffer(size);
                let mut c = CommandBuffer::new();
                c.record(GpuOp::SetViewport { size });
                c.record(GpuOp::SetRenderPipeline);
                c.record(GpuOp::BindBuffer {
                    slot: VERTEX_BUFFER_SLOT,
                    buffer: BufferId::TriangleVertices,
                });
                c.record(GpuOp::BindBuffer {
                    slot: VIEWPORT_BUFFER_SLOT,
                    buffer: BufferId::ViewportSize,
                });
                c.record(GpuOp::DrawTriangles { vertex_start: 0, vertex_count: 3 });
                c.record(GpuOp::PresentDrawable);
                c.commit();
                proof {
                    assert(c.ops() =~= render_pass_ops(size));
                }
                Some(c)
            },
        }
    }
}

/// Every frame encodes exactly one draw call, of exactly three vertices
/// starting at index zero: as many as the startup vertex records, which every
/// well-formed render state still holds unchanged.
pub proof fn lemma_triangle_draw(size: SurfaceSize, s: RenderState)
    requires
        s.wf(),
    ensures
        render_pass_ops(size)[4] == (GpuOp::DrawTriangles { vertex_start: 0, vertex_count: 3 }),
        forall|i: int|
            0 <= i < render_pass_ops(size).len() && i != 4 ==> !(render_pass_ops(
                size,
            )[i] is DrawTriangles),
        s.vertex_view().len() == 3,
        forall|i: int| 0 <= i < 3 ==> vertex_wf(s.vertex_view()[i]),
{
    assert forall|i: int|
        0 <= i < render_pass_ops(size).len() && i != 4 implies !(render_pass_ops(
        size,
    )[i] is DrawTriangles) by {
        assert(render_pass_ops(size).len() == 6);
    }
    assert forall|i: int| 0 <= i < 3 implies vertex_wf(s.vertex_view()[i]) by {
        assert(s.vertex_view() == spec_triangle_vertices());
    }
}

/// Every buffer binding a frame records uses one of the two slots the
/// pipeline's input layout declares, and the vertex data itself is bound at
/// the slot the layout's attributes read from.
pub proof fn lemma_bindings_match_layout(size: SurfaceSize)
    ensures
        forall|i: int|
            0 <= i < render_pass_ops(size).len() ==> (#[trigger] render_pass_ops(size)[i] matches
            GpuOp::BindBuffer { slot, .. } ==> slot == VERTEX_BUFFER_SLOT || slot
                == VIEWPORT_BUFFER_SLOT),
        render_pass_ops(size)[2] == (GpuOp::BindBuffer {
            slot: VERTEX_BUFFER_SLOT,
            buffer: BufferId::TriangleVertices,
        }),
{
}

} // verus!
