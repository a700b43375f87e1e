//! Framework-independent types shared by role logic.

use vstd::prelude::*;

verus! {

/// Counts capture edges until a frame's worth has arrived.
pub struct CaptureBuffer {
    edges: u8,
}

/// A decoded RC frame.
pub struct RcFrame(pub u32);

/// The edge count after one more edge (the counter wraps).
pub open spec fn after_edge(edges: u8) -> u8 {
    ((edges + 1) % 256) as u8
}

/// Whether a buffer holding `edges` edges has a frame to decode.
pub open spec fn frame_ready(edges: u8) -> bool {
    edges >= 8
}

impl View for CaptureBuffer {
    type V = u8;

    closed spec fn view(&self) -> u8 {
        self.edges
    }
}

impl CaptureBuffer {
    /// The buffer holding `edges` edges.
    pub closed spec fn with_edges(edges: u8) -> CaptureBuffer {
        CaptureBuffer { edges }
    }

    /// The empty buffer.
    pub open spec fn empty() -> CaptureBuffer {
        CaptureBuffer::with_edges(0)
    }

    /// The buffer holding `edges` edges has that edge count.
    pub proof fn with_edges_view(edges: u8)
        ensures
            #[trigger] CaptureBuffer::with_edges(edges)@ == edges,
    {
    }

    /// A buffer is determined by its edge count.
    pub proof fn view_determines(a: CaptureBuffer)
        ensures
            #[trigger] CaptureBuffer::with_edges(a@) == a,
    {
    }

    /// An empty buffer.
    pub fn new() -> (buffer: Self)
        ensures
            buffer@ == 0,
            buffer == CaptureBuffer::empty(),
    {
        Self { edges: 0 }
    }

    /// Records one capture edge.
    pub fn push_edge(&mut self)
        ensures
            final(self)@ == after_edge(old(self)@),
    {
        self.edges = self.edges.wrapping_add(1);
    }

    /// Decodes a frame once eight or more edges have arrived, emptying the
    /// buffer; otherwise leaves the buffer as it is.
    pub fn try_decode(&mut self) -> (frame: Option<RcFrame>)
        ensures
            frame_ready(old(self)@) ==> final(self)@ == 0 && frame == Some(RcFrame(1)),
            !frame_ready(old(self)@) ==> final(self)@ == old(self)@ && frame is None,
    {
        if self.edges >= 8 {
            self.edges = 0;
            Some(RcFrame(1))
        } else {
            None
        }
    }
}

} // verus!
