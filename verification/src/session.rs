//! The per-frame recording session, as a typestate pair.
//!
//! `RenderCommandEncoder` is the idle state: no pass is open, and the only
//! recording operations available are opening a pass and submitting.
//! `RenderPassHandle`, returned by `begin_pass`, is the sole type exposing
//! the draw operation, and `end_pass` consumes it - issuing a draw while
//! idle, nesting passes, or submitting mid-pass is unrepresentable, with
//! no runtime flag check. Each value carries the ghost trace of the
//! commands it has recorded, always a trace the protocol accepts.

use vstd::prelude::*;

use crate::gpu;
use crate::protocol::{run, Cmd};

verus! {

/// An idle command-recording buffer: open (or reset after a closed pass),
/// with no render pass active.
pub struct RenderCommandEncoder {
    encoder: wgpu::CommandEncoder,
    trace: Ghost<Seq<Cmd>>,
}

/// An open render pass, bound to one acquired target view: the only state
/// in which draw commands can be issued.
pub struct RenderPassHandle {
    encoder: wgpu::CommandEncoder,
    pass: wgpu::RenderPass<'static>,
    trace: Ghost<Seq<Cmd>>,
}

impl RenderCommandEncoder {
    /// The commands this session has recorded so far.
    pub closed spec fn trace(self) -> Seq<Cmd> {
        self.trace@
    }

    /// An idle session's trace is legal and ends outside any pass.
    pub open spec fn wf(self) -> bool {
        run(self.trace()) == Some(false)
    }

    /// Wrap a fresh command-recording buffer; nothing is recorded yet.
    pub fn create(encoder: wgpu::CommandEncoder) -> (r: Self)
        ensures
            r.trace() == Seq::<Cmd>::empty(),
            r.wf(),
    {
        Self { encoder, trace: Ghost(Seq::empty()) }
    }

    /// Open a render pass targeting the acquired view: the pass clears the
    /// target to the fixed background color, will store its results, and
    /// draws against the given pipeline. Only an idle session can open a
    /// pass; the session is consumed, so a second `begin_pass` without an
    /// intervening `end_pass` cannot be written.
    pub fn begin_pass(
        self,
        view: &wgpu::TextureView,
        pipeline: &wgpu::RenderPipeline,
    ) -> (p: RenderPassHandle)
        requires
            self.wf(),
        ensures
            p.trace() == self.trace().push(Cmd::BeginPass),
            p.wf(),
    {
        let Self { mut encoder, trace } = self;
        let mut pass = gpu::begin_cleared_pass(&mut encoder, view);
        gpu::set_pipeline(&mut pass, pipeline);
        let p = RenderPassHandle { encoder, pass, trace: Ghost(trace@.push(Cmd::BeginPass)) };
        proof {
            assert(p.trace@.drop_last() =~= trace@);
        }
        p
    }

    /// Finalize the recording buffer and hand it to the queue for
    /// execution. Valid only while idle - an open pass must be ended
    /// first - and consumes the session: a new one must be created for
    /// the next frame. Returns the submitted trace, which the protocol
    /// accepts as a closed recording.
    pub fn submit(self, queue: &wgpu::Queue) -> (t: Ghost<Seq<Cmd>>)
        requires
            self.wf(),
        ensures
            t@ == self.trace(),
            run(t@) == Some(false),
    {
        let Self { encoder, trace } = self;
        let buffer = gpu::finish_encoder(encoder);
        gpu::submit_one(queue, buffer);
        Ghost(trace@)
    }
}

impl RenderPassHandle {
    /// The commands recorded so far, the open pass included.
    pub closed spec fn trace(self) -> Seq<Cmd> {
        self.trace@
    }

    /// An open pass's trace is legal and ends inside the pass.
    pub open spec fn wf(self) -> bool {
        run(self.trace()) == Some(true)
    }

    /// Issue the fixed-topology draw call: vertex range [0, 3), one
    /// instance, against the pipeline bound when the pass was opened.
    /// Callable only while the pass is open.
    pub fn draw_triangle(&mut self)
        requires
            old(self).wf(),
        ensures
            final(self).trace() == old(self).trace().push(Cmd::Draw),
            final(self).wf(),
    {
        gpu::draw_range(&mut self.pass, 0, 3, 0, 1);
        self.trace = Ghost(self.trace@.push(Cmd::Draw));
        proof {
            assert(self.trace@.drop_last() =~= old(self).trace@);
        }
    }

    /// Close the render pass, making its recorded commands final, and
    /// return to the idle state. The pass object is consumed and cannot
    /// be referenced afterwards.
    pub fn end_pass(self) -> (r: RenderCommandEncoder)
        requires
            self.wf(),
        ensures
            r.trace() == self.trace().push(Cmd::EndPass),
            r.wf(),
    {
        let Self { encoder, pass, trace } = self;
        let r = RenderCommandEncoder { encoder, trace: Ghost(trace@.push(Cmd::EndPass)) };
        proof {
            assert(r.trace@.drop_last() =~= trace@);
        }
        r
    }
}

} // verus!
