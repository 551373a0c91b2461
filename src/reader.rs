//! What a stream reader does with the outcome of each read.
use vstd::prelude::*;

use crate::mailbox::LineMailbox;

verus! {

/// The outcome of reading one line (up to and including its terminator)
/// from a child's output pipe.
pub enum ReadOutcome {
    /// The bytes read; none at all means the stream has ended.
    Bytes(Vec<u8>),
    /// The read failed.
    Failed,
}

/// What the reader does next.
#[derive(Debug, PartialEq, Eq, Structural)]
pub enum ReaderStep {
    /// Read the next line.
    Continue,
    /// Stop reading and raise the stream's completion signal; `failed` says
    /// that a read error is to be reported. The error goes no further.
    Stop { failed: bool },
}

/// Handles one read: a non-empty chunk replaces the mailbox's pending chunk
/// and reading goes on; an empty read (end of stream) or a failed one stops
/// the reader and leaves the mailbox as it was.
pub fn on_read(mailbox: &mut LineMailbox, outcome: ReadOutcome) -> (r: ReaderStep)
    ensures
        match outcome {
            ReadOutcome::Bytes(b) => if b@.len() > 0 {
                &&& r == ReaderStep::Continue
                &&& final(mailbox)@ == old(mailbox)@.after_publish(b@)
            } else {
                &&& r == (ReaderStep::Stop { failed: false })
                &&& final(mailbox)@ == old(mailbox)@
            },
            ReadOutcome::Failed => {
                &&& r == (ReaderStep::Stop { failed: true })
                &&& final(mailbox)@ == old(mailbox)@
            },
        },
{
    match outcome {
        ReadOutcome::Bytes(b) => {
            if b.len() > 0 {
                mailbox.publish(b);
                ReaderStep::Continue
            } else {
                ReaderStep::Stop { failed: false }
            }
        },
        ReadOutcome::Failed => ReaderStep::Stop { failed: true },
    }
}

} // verus!
