//! The display loop: what it writes to the terminal on each pass and when it
//! stops.
use vstd::prelude::*;

use crate::mailbox::LineMailbox;

verus! {

/// The terminal control bytes `ESC [ 2 K` (erase the line) and `ESC [ G`
/// (cursor to column one).
pub open spec fn clear_line() -> Seq<u8> {
    seq![0x1bu8, 0x5bu8, 0x32u8, 0x4bu8, 0x1bu8, 0x5bu8, 0x47u8]
}

/// What one pass writes: nothing when both chunks are empty, else the
/// line-clearing sequence, the standard output chunk, then the standard
/// error chunk.
pub open spec fn frame(out: Seq<u8>, err: Seq<u8>) -> Seq<u8> {
    if out.len() == 0 && err.len() == 0 {
        Seq::empty()
    } else {
        clear_line() + out + err
    }
}

/// Appends the bytes of `src` to `dst`.
fn append_bytes(dst: &mut Vec<u8>, src: &Vec<u8>)
    ensures
        final(dst)@ == old(dst)@ + src@,
{
    let n = src.len();
    let mut i: usize = 0;
    while i < n
        invariant
            n == src@.len(),
            i <= n,
            dst@ == old(dst)@ + src@.take(i as int),
        decreases n - i,
    {
        dst.push(src[i]);
        proof {
            assert(src@.take(i + 1) =~= src@.take(i as int).push(src@[i as int]));
        }
        i = i + 1;
    }
    proof {
        assert(src@.take(n as int) =~= src@);
    }
}

/// The bytes to write for one pass over the two chunks.
pub fn render_frame(out: &Vec<u8>, err: &Vec<u8>) -> (r: Vec<u8>)
    ensures
        r@ == frame(out@, err@),
{
    let mut r: Vec<u8> = Vec::new();
    if out.len() == 0 && err.len() == 0 {
        proof {
            assert(r@ =~= frame(out@, err@));
        }
        return r;
    }
    r.push(0x1b);
    r.push(0x5b);
    r.push(0x32);
    r.push(0x4b);
    r.push(0x1b);
    r.push(0x5b);
    r.push(0x47);
    proof {
        assert(r@ =~= clear_line());
    }
    append_bytes(&mut r, out);
    append_bytes(&mut r, err);
    r
}

/// Takes the pending chunks of both mailboxes, standard output first, and
/// returns what to write for them. Both mailboxes are left empty.
pub fn drain(out: &mut LineMailbox, err: &mut LineMailbox) -> (r: Vec<u8>)
    ensures
        r@ == frame(old(out)@.pending, old(err)@.pending),
        final(out)@ == old(out)@.after_take(),
        final(err)@ == old(err)@.after_take(),
{
    let o = out.take();
    let e = err.take();
    render_frame(&o, &e)
}

/// Which of the two readers have raised their completion signal. A signal
/// is seen once; the tracker remembers it.
pub struct CompletionTracker {
    pub out_done: bool,
    pub err_done: bool,
}

/// One pass of the display loop: the bytes to write, and whether this was
/// the last pass.
pub struct Pass {
    pub frame: Vec<u8>,
    pub last: bool,
}

impl CompletionTracker {
    /// No signal seen yet.
    pub fn new() -> (r: CompletionTracker)
        ensures
            !r.out_done,
            !r.err_done,
    {
        CompletionTracker { out_done: false, err_done: false }
    }

    /// Both readers have finished.
    pub open spec fn all_done(&self) -> bool {
        self.out_done && self.err_done
    }

    /// Records the signals seen on this pass.
    pub fn observe(&mut self, out_fired: bool, err_fired: bool)
        ensures
            final(self).out_done == (old(self).out_done || out_fired),
            final(self).err_done == (old(self).err_done || err_fired),
    {
        self.out_done = self.out_done || out_fired;
        self.err_done = self.err_done || err_fired;
    }

    /// Whether both readers have finished.
    pub fn finished(&self) -> (r: bool)
        ensures
            r == self.all_done(),
    {
        self.out_done && self.err_done
    }

    /// One pass of the display loop. The signals are recorded before the
    /// mailboxes are drained: a reader publishes its last chunk before it
    /// signals, so once both signals are in, the drain of this same pass
    /// holds every chunk that is left, and the pass is the last.
    pub fn pass(
        &mut self,
        out_fired: bool,
        err_fired: bool,
        out: &mut LineMailbox,
        err: &mut LineMailbox,
    ) -> (r: Pass)
        ensures
            final(self).out_done == (old(self).out_done || out_fired),
            final(self).err_done == (old(self).err_done || err_fired),
            r.last == final(self).all_done(),
            r.frame@ == frame(old(out)@.pending, old(err)@.pending),
            final(out)@ == old(out)@.after_take(),
            final(err)@ == old(err)@.after_take(),
    {
        self.observe(out_fired, err_fired);
        let last = self.finished();
        let frame = drain(out, err);
        Pass { frame, last }
    }
}

} // verus!
