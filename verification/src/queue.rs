//! The command queue itself: viewport state plus the pending commands, with
//! one executable operation per entry point of the renderer interface.

use std::collections::VecDeque;

use vstd::prelude::*;

use crate::commands::{AtlasCreate, AtlasRectChunk, BlendMode, Camera, Command, Sprite, Tiles};
use crate::laws::{step, QueueOp};

verus! {

/// The mathematical value of a [`Renderer`]: the viewport dimensions and the
/// pending commands in enqueue order.
#[verifier::ext_equal]
pub struct RendererView {
    pub width: u32,
    pub height: u32,
    pub pending: Seq<Command>,
}

/// The renderer state: a viewport and an unbounded FIFO buffer of commands.
///
/// Producers append with [`Renderer::push`] or one of the typed operations
/// built on it; the consumer takes everything at once with
/// [`Renderer::get_commands`]. No operation fails, and none reads a
/// command's payload.
pub struct Renderer {
    w: u32,
    h: u32,
    q: VecDeque<Command>,
}

impl View for Renderer {
    type V = RendererView;

    closed spec fn view(&self) -> RendererView {
        RendererView { width: self.w, height: self.h, pending: self.q@ }
    }
}

impl Renderer {
    /// A fresh renderer: zeroed viewport, nothing pending.
    pub fn new() -> (r: Renderer)
        ensures
            r@.width == 0,
            r@.height == 0,
            r@.pending == Seq::<Command>::empty(),
    {
        Renderer { w: 0, h: 0, q: VecDeque::new() }
    }

    /// Appends one command at the tail of the pending buffer. Always
    /// succeeds; the primitive behind every producer operation.
    pub fn push(&mut self, c: Command)
        ensures
            final(self)@ == step(old(self)@, QueueOp::Enqueue(c)).0,
            final(self)@.pending == old(self)@.pending.push(c),
            final(self)@.width == old(self)@.width,
            final(self)@.height == old(self)@.height,
    {
        self.q.push_back(c);
        proof {
            assert(self@ =~= step(old(self)@, QueueOp::Enqueue(c)).0);
        }
    }

    /// Enqueues `BeginFrame` with an optional packed clear colour.
    pub fn begin_frame(&mut self, clear: Option<u32>)
        ensures
            final(self)@.pending == old(self)@.pending.push(Command::BeginFrame(clear)),
            final(self)@.width == old(self)@.width,
            final(self)@.height == old(self)@.height,
    {
        self.push(Command::BeginFrame(clear));
    }

    /// Enqueues `EndFrame`.
    pub fn end_frame(&mut self)
        ensures
            final(self)@.pending == old(self)@.pending.push(Command::EndFrame),
            final(self)@.width == old(self)@.width,
            final(self)@.height == old(self)@.height,
    {
        self.push(Command::EndFrame);
    }

    /// Enqueues `SetBlend` with the given blend mode.
    pub fn set_blend(&mut self, mode: BlendMode)
        ensures
            final(self)@.pending == old(self)@.pending.push(Command::SetBlend(mode)),
            final(self)@.width == old(self)@.width,
            final(self)@.height == old(self)@.height,
    {
        self.push(Command::SetBlend(mode));
    }

    /// Enqueues `SetCamera` with the given camera descriptor.
    pub fn set_camera(&mut self, cam: Camera)
        ensures
            final(self)@.pending == old(self)@.pending.push(Command::SetCamera(cam)),
            final(self)@.width == old(self)@.width,
            final(self)@.height == old(self)@.height,
    {
        self.push(Command::SetCamera(cam));
    }

    /// Enqueues `CreateAtlas` with the given creation descriptor.
    pub fn create_atlas(&mut self, desc: AtlasCreate)
        ensures
            final(self)@.pending == old(self)@.pending.push(Command::CreateAtlas(desc)),
            final(self)@.width == old(self)@.width,
            final(self)@.height == old(self)@.height,
    {
        self.push(Command::CreateAtlas(desc));
    }

    /// Enqueues `UploadAtlasChunk` with the given pixel chunk.
    pub fn upload_atlas_chunk(&mut self, ch: AtlasRectChunk)
        ensures
            final(self)@.pending == old(self)@.pending.push(Command::UploadAtlasChunk(ch)),
            final(self)@.width == old(self)@.width,
            final(self)@.height == old(self)@.height,
    {
        self.push(Command::UploadAtlasChunk(ch));
    }

    /// Enqueues `FinalizeAtlas` for the given atlas id.
    pub fn finalize_atlas(&mut self, id: u16)
        ensures
            final(self)@.pending == old(self)@.pending.push(Command::FinalizeAtlas(id)),
            final(self)@.width == old(self)@.width,
            final(self)@.height == old(self)@.height,
    {
        self.push(Command::FinalizeAtlas(id));
    }

    /// Enqueues `DrawSprite` with the given sprite descriptor.
    pub fn draw_sprite(&mut self, s: Sprite)
        ensures
            final(self)@.pending == old(self)@.pending.push(Command::DrawSprite(s)),
            final(self)@.width == old(self)@.width,
            final(self)@.height == old(self)@.height,
    {
        self.push(Command::DrawSprite(s));
    }

    /// Enqueues `DrawTiles` with the given tile-batch descriptor.
    pub fn draw_tiles(&mut self, t: Tiles)
        ensures
            final(self)@.pending == old(self)@.pending.push(Command::DrawTiles(t)),
            final(self)@.width == old(self)@.width,
            final(self)@.height == old(self)@.height,
    {
        self.push(Command::DrawTiles(t));
    }

    /// Drains the queue: removes and returns every pending command, in
    /// enqueue order, leaving the buffer empty. The viewport is untouched.
    pub fn get_commands(&mut self) -> (out: Vec<Command>)
        ensures
            out@ == old(self)@.pending,
            final(self)@.pending == Seq::<Command>::empty(),
            final(self)@.width == old(self)@.width,
            final(self)@.height == old(self)@.height,
            final(self)@ == step(old(self)@, QueueOp::Drain).0,
            out@ == step(old(self)@, QueueOp::Drain).1,
    {
        let ghost orig: RendererView = self@;
        let mut out: Vec<Command> = Vec::with_capacity(self.q.len());
        while self.q.len() > 0
            invariant
                out@ + self.q@ == orig.pending,
                self.w == orig.width,
                self.h == orig.height,
            decreases self.q.len(),
        {
            if let Some(c) = self.q.pop_front() {
                out.push(c);
            }
        }
        proof {
            assert(self.q@ =~= Seq::<Command>::empty());
            assert(out@ =~= orig.pending);
            assert(self@ =~= step(orig, QueueOp::Drain).0);
        }
        out
    }

    /// Hard reset: installs the new viewport and discards every pending,
    /// undrained command, atomically with respect to the other operations.
    pub fn init(&mut self, width: u32, height: u32)
        ensures
            final(self)@.pending == Seq::<Command>::empty(),
            final(self)@.width == width,
            final(self)@.height == height,
            final(self)@ == step(old(self)@, QueueOp::Init(width, height)).0,
    {
        self.w = width;
        self.h = height;
        self.q.clear();
        proof {
            assert(self@ =~= step(old(self)@, QueueOp::Init(width, height)).0);
        }
    }

    /// Installs the new viewport and nothing else: the pending commands are
    /// exactly what they were before the call.
    pub fn resize(&mut self, width: u32, height: u32)
        ensures
            final(self)@.pending == old(self)@.pending,
            final(self)@.width == width,
            final(self)@.height == height,
            final(self)@ == step(old(self)@, QueueOp::Resize(width, height)).0,
    {
        self.w = width;
        self.h = height;
        proof {
            assert(self@ =~= step(old(self)@, QueueOp::Resize(width, height)).0);
        }
    }

    /// The viewport width the renderer is configured for.
    pub fn width(&self) -> (r: u32)
        ensures
            r == self@.width,
    {
        self.w
    }

    /// The viewport height the renderer is configured for.
    pub fn height(&self) -> (r: u32)
        ensures
            r == self@.height,
    {
        self.h
    }

    /// How many commands are buffered and not yet drained.
    pub fn pending_len(&self) -> (n: usize)
        ensures
            n == self@.pending.len(),
    {
        self.q.len()
    }
}

} // verus!
