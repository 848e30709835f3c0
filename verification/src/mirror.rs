use vstd::prelude::*;

use crate::frame::{read_buffer, write_buffer, BufferId};
use crate::layout::Boid;

verus! {

/// Host-side model of the two agent-state buffers' logical contents. The
/// real buffers live on the device; this mirror states and checks what the
/// orchestration does to them without needing a device.
pub struct BufferMirror {
    /// Contents of buffer A.
    pub buf_a: Vec<Boid>,
    /// Contents of buffer B.
    pub buf_b: Vec<Boid>,
}

/// The contents of the named buffer.
pub open spec fn content(m: BufferMirror, id: BufferId) -> Seq<Boid> {
    match id {
        BufferId::A => m.buf_a@,
        BufferId::B => m.buf_b@,
    }
}

/// Copies an agent array element by element.
fn copy_boids(src: &Vec<Boid>) -> (dst: Vec<Boid>)
    ensures
        dst@ == src@,
{
    let mut dst: Vec<Boid> = Vec::new();
    let mut idx: usize = 0;
    while idx < src.len()
        invariant
            idx <= src@.len(),
            dst@ == src@.take(idx as int),
        decreases src@.len() - idx,
    {
        dst.push(src[idx]);
        proof {
            assert(dst@ =~= src@.take(idx + 1));
        }
        idx = idx + 1;
    }
    proof {
        assert(src@.take(src@.len() as int) =~= src@);
    }
    dst
}

impl BufferMirror {
    /// Both buffers start with the same initial agent array, so either may
    /// serve as the first read buffer with identical results.
    pub fn new(boids: &Vec<Boid>) -> (m: BufferMirror)
        ensures
            content(m, BufferId::A) == boids@,
            content(m, BufferId::B) == boids@,
    {
        let buf_a = copy_boids(boids);
        let buf_b = copy_boids(boids);
        BufferMirror { buf_a, buf_b }
    }

    /// One frame under an identity compute kernel: the frame's write buffer
    /// takes over the read buffer's contents, and the read buffer — the one
    /// the render pass draws from — is untouched.
    pub fn run_identity_frame(&mut self, frame: u64)
        ensures
            content(*final(self), write_buffer(frame as nat)) == content(
                *old(self),
                read_buffer(frame as nat),
            ),
            content(*final(self), read_buffer(frame as nat)) == content(
                *old(self),
                read_buffer(frame as nat),
            ),
    {
        if frame % 2 == 0 {
            let next = copy_boids(&self.buf_a);
            self.buf_b = next;
        } else {
            let next = copy_boids(&self.buf_b);
            self.buf_a = next;
        }
    }
}

/// With an identity kernel and both buffers holding the same array, one
/// orchestrated frame leaves every buffer — in particular the render pass's
/// instance source — exactly equal to the original array: the orchestration
/// alone introduces no corruption.
pub proof fn lemma_orchestration_no_corruption(
    before: BufferMirror,
    after: BufferMirror,
    frame: nat,
    init: Seq<Boid>,
)
    requires
        content(before, BufferId::A) == init,
        content(before, BufferId::B) == init,
        content(after, write_buffer(frame)) == content(before, read_buffer(frame)),
        content(after, read_buffer(frame)) == content(before, read_buffer(frame)),
    ensures
        content(after, read_buffer(frame)) == init,
        content(after, BufferId::A) == init,
        content(after, BufferId::B) == init,
{
}

} // verus!
