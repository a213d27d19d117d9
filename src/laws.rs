//! Properties that relate several calls of the library.
use vstd::prelude::*;

use crate::frame_loop::{
    any_terminating, finish_spec, is_terminating, tick_spec, FrameStep, Key, LoopError, LoopState,
    WindowEvent,
};
use crate::layout::{
    is_packed_layout, lemma_pos_color_packing, pos_color_formats, AttributeFormat, VertexLayout,
};
use crate::pipeline::{
    buffer_size, prepare_step, prepared, BufferRequest, BufferUsage, MemoryPolicy, NodeState, PrepareStep, VertexBuffer,
};

verus! {

/// The node after a run of preparations, the device handing back `fresh[k]`
/// whenever the k-th one asks for a buffer.
pub open spec fn prepare_all(s: NodeState, fresh: Seq<u64>) -> NodeState
    decreases fresh.len(),
{
    if fresh.len() == 0 {
        s
    } else {
        prepare_all(prepared(s, fresh[0]), fresh.drop_first())
    }
}

/// Provisioning happens once: after the first preparation of an empty node,
/// every later preparation asks for nothing and leaves the buffer, its handle
/// and its size, as the first one set them.
pub proof fn lemma_prepare_idempotent(s: NodeState, first: u64, later: Seq<u64>)
    requires
        s.buffer is None,
    ensures
        prepare_all(prepared(s, first), later) == prepared(s, first),
        prepared(s, first).buffer == Some(
            VertexBuffer { handle: first, size: buffer_size(s.stride) as u64 },
        ),
        prepare_step(prepare_all(prepared(s, first), later)) == PrepareStep::Reuse,
    decreases later.len(),
{
    if later.len() > 0 {
        lemma_prepare_idempotent(s, first, later.drop_first());
    }
}

/// The static layout and the layout packed from the reflected inputs of the
/// triangle's vertex shader agree in attributes and stride, so the buffer the
/// node first asks for holds three vertices of that one stride.
pub proof fn lemma_layout_sources_agree(
    stat: VertexLayout,
    refl: VertexLayout,
    inputs: Seq<AttributeFormat>,
)
    requires
        is_packed_layout(stat, pos_color_formats()),
        is_packed_layout(refl, inputs),
        inputs == pos_color_formats(),
    ensures
        refl.attributes@ == stat.attributes@,
        refl.stride == stat.stride,
        refl.stride == 28,
        prepare_step(NodeState { stride: refl.stride, buffer: None }) == PrepareStep::Provision(
            BufferRequest {
                size: (stat.stride * 3) as u64,
                usage: BufferUsage::Vertex,
                memory: MemoryPolicy::Dynamic,
            },
        ),
{
    lemma_pos_color_packing();
}

/// A close request or the Escape key ends a running loop within the tick that
/// polls it: that tick still renders its frame, the loop no longer runs after
/// it, and the next tick stops. No other event stops the loop.
pub proof fn lemma_termination_events(
    s: LoopState,
    events: Seq<WindowEvent>,
    next: Seq<WindowEvent>,
    e: WindowEvent,
)
    requires
        s.running,
        s.frames < u64::MAX,
    ensures
        tick_spec(s, events).0 == FrameStep::Render,
        tick_spec(s, events).1.running == !any_terminating(events),
        any_terminating(events) ==> tick_spec(tick_spec(s, events).1, next).0 == FrameStep::Stop,
        tick_spec(s, seq![e]).1.running == !(e == WindowEvent::CloseRequested || e
            == WindowEvent::KeyDown(Key::Escape)),
{
    let es = seq![e];
    if is_terminating(e) {
        assert(is_terminating(es[0]));
    }
}

/// The graph is disposed of once: after a loop has ended, ending it again is
/// refused and changes nothing.
pub proof fn lemma_dispose_once(s: LoopState)
    requires
        finish_spec(s).0 is Ok,
    ensures
        finish_spec(finish_spec(s).1).0 == Err::<crate::frame_loop::FrameReport, LoopError>(
            LoopError::AlreadyDisposed,
        ),
        finish_spec(finish_spec(s).1).1 == finish_spec(s).1,
{
}

} // verus!
