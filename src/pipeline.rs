//! The triangle node: its descriptor, which checks the configuration and
//! builds the node, and the node's state machine (empty, then provisioned).
use vstd::prelude::*;

use crate::layout::{
    is_packed_layout, layout_from_formats, lemma_packed_attributes_injective, lemma_pos_color_packing, pos_color_formats, pos_color_layout, AttributeFormat,
    VertexLayout,
};

verus! {

/// Number of vertices of the triangle.
pub const VERTEX_COUNT: u64 = 3;

/// Why a node could not be built.
#[derive(Clone, Copy, Debug, PartialEq, Eq, Structural)]
pub enum PipelineError {
    /// The reflected vertex inputs do not match the static vertex layout.
    LayoutMismatch,
}

/// Depth and stencil testing of a pipeline.
#[derive(Clone, Copy, Debug, PartialEq, Eq, Structural)]
pub struct DepthStencil {
    pub depth_test: bool,
    pub stencil_test: bool,
}

/// Configuration of the triangle node: where its vertex layout comes from.
/// `reflected` holds the vertex-shader inputs that reflection reported, in
/// location order; without it the static layout is used.
#[derive(Clone, Debug)]
pub struct TriangleRenderPipelineDesc {
    pub reflected: Option<Vec<AttributeFormat>>,
}

/// Whether the descriptor's layout source agrees with the static layout.
pub open spec fn desc_layout_ok(d: TriangleRenderPipelineDesc) -> bool {
    match d.reflected {
        None => true,
        Some(fs) => fs@ == pos_color_formats(),
    }
}

impl TriangleRenderPipelineDesc {
    /// A descriptor that takes the static vertex layout.
    pub fn new() -> (r: Self)
        ensures
            r.reflected is None,
    {
        TriangleRenderPipelineDesc { reflected: None }
    }

    /// A descriptor that takes the vertex layout from reflected shader inputs.
    pub fn with_reflection(inputs: Vec<AttributeFormat>) -> (r: Self)
        ensures
            r.reflected == Some(inputs),
    {
        TriangleRenderPipelineDesc { reflected: Some(inputs) }
    }

    /// The node tests neither depth nor stencil.
    pub fn depth_stencil(&self) -> (r: Option<DepthStencil>)
        ensures
            r is None,
    {
        None
    }

    /// The vertex layout of the node. From reflection it must agree with the
    /// static layout in attribute count, formats, offsets and stride; where it
    /// does not, the configuration is broken.
    pub fn vertex_layout(&self) -> (r: Result<VertexLayout, PipelineError>)
        ensures
            r is Ok <==> desc_layout_ok(*self),
            r matches Ok(l) ==> is_packed_layout(l, pos_color_formats()) && l.stride == 28,
            r matches Err(e) ==> e == PipelineError::LayoutMismatch,
    {
        let stat = pos_color_layout();
        match &self.reflected {
            None => Ok(stat),
            Some(inputs) => {
                match layout_from_formats(inputs) {
                    None => {
                        proof {
                            assert(inputs@ != pos_color_formats()) by {
                                lemma_pos_color_packing();
                            }
                        }
                        Err(PipelineError::LayoutMismatch)
                    },
                    Some(l) => {
                        if formats_match(&l, &stat) {
                            proof {
                                lemma_packed_attributes_injective(inputs@, pos_color_formats());
                            }
                            Ok(l)
                        } else {
                            Err(PipelineError::LayoutMismatch)
                        }
                    },
                }
            },
        }
    }

    /// The vertex buffer layouts of the node: exactly one.
    pub fn vertices(&self) -> (r: Result<Vec<VertexLayout>, PipelineError>)
        ensures
            r is Ok <==> desc_layout_ok(*self),
            r matches Ok(v) ==> v@.len() == 1 && is_packed_layout(v@[0], pos_color_formats()),
            r matches Err(e) ==> e == PipelineError::LayoutMismatch,
    {
        match self.vertex_layout() {
            Ok(l) => {
                let mut v: Vec<VertexLayout> = Vec::new();
                v.push(l);
                Ok(v)
            },
            Err(e) => Err(e),
        }
    }

    /// Builds the node in its empty state. The counts are those of the
    /// buffers, images and descriptor-set layouts the graph hands the node:
    /// it declares none, and any handed to it are a fatal error of the caller.
    pub fn build(self, buffers: usize, images: usize, set_layouts: usize) -> (r: Result<
        TriangleRenderPipeline,
        PipelineError,
    >)
        requires
            buffers == 0,
            images == 0,
            set_layouts == 0,
        ensures
            r is Ok <==> desc_layout_ok(self),
            r matches Err(e) ==> e == PipelineError::LayoutMismatch,
            r matches Ok(p) ==> p@ == (NodeState { stride: 28, buffer: None }),
    {
        match self.vertex_layout() {
            Ok(l) => Ok(TriangleRenderPipeline { stride: l.stride, vertex_buffer: None }),
            Err(e) => Err(e),
        }
    }
}

impl Default for TriangleRenderPipelineDesc {
    /// The descriptor that takes the static vertex layout.
    fn default() -> (r: Self)
        ensures
            r.reflected is None,
    {
        TriangleRenderPipelineDesc::new()
    }
}

/// Whether two layouts list the same formats at the same offsets, with the
/// same stride.
fn formats_match(a: &VertexLayout, b: &VertexLayout) -> (r: bool)
    ensures
        r == (a.attributes@ == b.attributes@ && a.stride == b.stride),
{
    if a.stride != b.stride || a.attributes.len() != b.attributes.len() {
        return false;
    }
    let mut i: usize = 0;
    while i < a.attributes.len()
        invariant
            i <= a.attributes@.len(),
            a.attributes@.len() == b.attributes@.len(),
            forall|j: int| 0 <= j < i ==> a.attributes@[j] == b.attributes@[j],
        decreases a.attributes@.len() - i,
    {
        if a.attributes[i] != b.attributes[i] {
            return false;
        }
        i = i + 1;
    }
    proof {
        assert(a.attributes@ =~= b.attributes@);
    }
    true
}

/// A GPU buffer, as the device hands it back: an identifier and its size in bytes.
#[derive(Clone, Copy, Debug, PartialEq, Eq, Structural)]
pub struct VertexBuffer {
    pub handle: u64,
    pub size: u64,
}

/// What a buffer is bound as.
#[derive(Clone, Copy, Debug, PartialEq, Eq, Structural)]
pub enum BufferUsage {
    Vertex,
    Index,
    Uniform,
}

/// Where a buffer's memory lives and who writes it.
#[derive(Clone, Copy, Debug, PartialEq, Eq, Structural)]
pub enum MemoryPolicy {
    /// Device-local, not visible to the host.
    Data,
    /// Device-local and host-visible, written by the host.
    Dynamic,
    /// Host memory for staging uploads.
    Upload,
    /// Host memory for reading results back.
    Download,
}

/// What `prepare` asks of the device before the node can draw: a buffer of
/// `size` bytes with the given usage and memory, filled with the triangle's
/// vertices.
#[derive(Clone, Copy, Debug, PartialEq, Eq, Structural)]
pub struct BufferRequest {
    pub size: u64,
    pub usage: BufferUsage,
    pub memory: MemoryPolicy,
}

/// What `prepare` decided.
#[derive(Clone, Copy, Debug, PartialEq, Eq, Structural)]
pub enum PrepareStep {
    /// The node has no buffer yet: create and fill one, then `provision` it.
    Provision(BufferRequest),
    /// The node already holds its buffer; the recorded draw may be reused.
    Reuse,
}

/// The answer a node gives the graph after `prepare`.
#[derive(Clone, Copy, Debug, PartialEq, Eq, Structural)]
pub enum PrepareResult {
    DrawRecord,
    DrawReuse,
}

/// A draw to record: bind `buffer` at `binding` and `offset`, then draw the
/// vertices `first_vertex..end_vertex` for instances `first_instance..end_instance`.
#[derive(Clone, Copy, Debug, PartialEq, Eq, Structural)]
pub struct DrawCommand {
    pub buffer: u64,
    pub binding: u32,
    pub offset: u64,
    pub first_vertex: u32,
    pub end_vertex: u32,
    pub first_instance: u32,
    pub end_instance: u32,
}

/// The model of a node: its vertex stride and the buffer it holds, if any.
pub struct NodeState {
    pub stride: u32,
    pub buffer: Option<VertexBuffer>,
}

/// Size in bytes of the triangle's vertex buffer for a given stride.
pub open spec fn buffer_size(stride: u32) -> nat {
    stride as nat * VERTEX_COUNT as nat
}

/// What `prepare` decides on a node.
pub open spec fn prepare_step(s: NodeState) -> PrepareStep {
    match s.buffer {
        None => PrepareStep::Provision(
            BufferRequest {
                size: buffer_size(s.stride) as u64,
                usage: BufferUsage::Vertex,
                memory: MemoryPolicy::Dynamic,
            },
        ),
        Some(_) => PrepareStep::Reuse,
    }
}

/// The node after one `prepare` in which the device, if asked, handed back
/// `fresh`.
pub open spec fn prepared(s: NodeState, fresh: u64) -> NodeState {
    match s.buffer {
        None => NodeState {
            stride: s.stride,
            buffer: Some(VertexBuffer { handle: fresh, size: buffer_size(s.stride) as u64 }),
        },
        Some(_) => s,
    }
}

/// The draw a provisioned node records.
pub open spec fn draw_command(b: VertexBuffer) -> DrawCommand {
    DrawCommand {
        buffer: b.handle,
        binding: 0,
        offset: 0,
        first_vertex: 0,
        end_vertex: 3,
        first_instance: 0,
        end_instance: 1,
    }
}

/// The triangle node. It starts without a vertex buffer, gets one on its first
/// `prepare`, and keeps it, unchanged, until `dispose`.
#[derive(Debug)]
pub struct TriangleRenderPipeline {
    stride: u32,
    vertex_buffer: Option<VertexBuffer>,
}

impl View for TriangleRenderPipeline {
    type V = NodeState;

    closed spec fn view(&self) -> NodeState {
        NodeState { stride: self.stride, buffer: self.vertex_buffer }
    }
}

impl TriangleRenderPipeline {
    /// The stride of one vertex, in bytes.
    pub fn vertex_stride(&self) -> (r: u32)
        ensures
            r == self@.stride,
    {
        self.stride
    }

    /// The vertex buffer, once provisioned.
    pub fn vertex_buffer(&self) -> (r: Option<VertexBuffer>)
        ensures
            r == self@.buffer,
    {
        self.vertex_buffer
    }

    /// Decides the work of this frame's preparation: a buffer to create on the
    /// first call, nothing after it.
    pub fn prepare(&self) -> (r: PrepareStep)
        ensures
            r == prepare_step(self@),
    {
        match self.vertex_buffer {
            None => PrepareStep::Provision(
                BufferRequest {
                    size: self.stride as u64 * VERTEX_COUNT,
                    usage: BufferUsage::Vertex,
                    memory: MemoryPolicy::Dynamic,
                },
            ),
            Some(_) => PrepareStep::Reuse,
        }
    }

    /// Takes the buffer the device created and filled for the request of
    /// `prepare`. The node is provisioned from then on.
    pub fn provision(&mut self, handle: u64) -> (r: PrepareResult)
        requires
            old(self)@.buffer is None,
        ensures
            final(self)@ == prepared(old(self)@, handle),
            r == PrepareResult::DrawReuse,
    {
        self.vertex_buffer = Some(VertexBuffer { handle, size: self.stride as u64 * VERTEX_COUNT });
        PrepareResult::DrawReuse
    }

    /// The draw of this frame: the same for every frame index.
    pub fn draw(&self, frame_index: usize) -> (r: DrawCommand)
        requires
            self@.buffer is Some,
        ensures
            r == draw_command(self@.buffer->Some_0),
    {
        let b = self.vertex_buffer.unwrap();
        DrawCommand {
            buffer: b.handle,
            binding: 0,
            offset: 0,
            first_vertex: 0,
            end_vertex: 3,
            first_instance: 0,
            end_instance: 1,
        }
    }

    /// Ends the node. Hands back the buffer to release, if one was provisioned.
    pub fn dispose(self) -> (r: Option<VertexBuffer>)
        ensures
            r == self@.buffer,
    {
        self.vertex_buffer
    }
}

} // verus!
