//! The single-writer, single-reader cell through which a stream reader hands
//! its latest chunk to the display loop.
use vstd::prelude::*;

verus! {

/// What a mailbox holds: the chunk published last and not yet taken (empty
/// when there is none), and every byte ever published, in order.
pub ghost struct MailboxState {
    pub pending: Seq<u8>,
    pub transcript: Seq<u8>,
}

impl MailboxState {
    /// The state after `chunk` is published: it replaces what was pending.
    pub open spec fn after_publish(self, chunk: Seq<u8>) -> MailboxState {
        MailboxState { pending: chunk, transcript: self.transcript + chunk }
    }

    /// The state after the pending chunk is taken.
    pub open spec fn after_take(self) -> MailboxState {
        MailboxState { pending: Seq::empty(), transcript: self.transcript }
    }
}

/// Latest-snapshot mailbox: a publish overwrites any chunk not yet taken.
/// Every published byte is also kept in a transcript.
pub struct LineMailbox {
    latest: Vec<u8>,
    transcript: Vec<u8>,
}

impl View for LineMailbox {
    type V = MailboxState;

    closed spec fn view(&self) -> MailboxState {
        MailboxState { pending: self.latest@, transcript: self.transcript@ }
    }
}

impl LineMailbox {
    /// An empty mailbox with an empty transcript.
    pub fn new() -> (r: LineMailbox)
        ensures
            r@.pending == Seq::<u8>::empty(),
            r@.transcript == Seq::<u8>::empty(),
    {
        LineMailbox { latest: Vec::new(), transcript: Vec::new() }
    }

    /// Replaces the pending chunk with `chunk` and adds it to the transcript.
    pub fn publish(&mut self, chunk: Vec<u8>)
        ensures
            final(self)@ == old(self)@.after_publish(chunk@),
    {
        let n = chunk.len();
        let mut i: usize = 0;
        while i < n
            invariant
                n == chunk@.len(),
                i <= n,
                self.latest@ == old(self).latest@,
                self.transcript@ == old(self).transcript@ + chunk@.take(i as int),
            decreases n - i,
        {
            self.transcript.push(chunk[i]);
            proof {
                assert(chunk@.take(i + 1) =~= chunk@.take(i as int).push(chunk@[i as int]));
            }
            i = i + 1;
        }
        proof {
            assert(chunk@.take(n as int) =~= chunk@);
        }
        self.latest = chunk;
        proof {
            assert(self@ =~= old(self)@.after_publish(chunk@));
        }
    }

    /// Hands out the pending chunk and leaves the mailbox with none.
    pub fn take(&mut self) -> (r: Vec<u8>)
        ensures
            r@ == old(self)@.pending,
            final(self)@ == old(self)@.after_take(),
    {
        let mut r: Vec<u8> = Vec::new();
        std::mem::swap(&mut r, &mut self.latest);
        proof {
            assert(self@ =~= old(self)@.after_take());
        }
        r
    }

    /// Whether a chunk is pending.
    pub fn has_pending(&self) -> (r: bool)
        ensures
            r == (self@.pending.len() > 0),
    {
        self.latest.len() > 0
    }

    /// Every byte published into this mailbox, in order.
    pub fn into_transcript(self) -> (r: Vec<u8>)
        ensures
            r@ == self@.transcript,
    {
        self.transcript
    }
}

/// An operation on a mailbox: a publish of a chunk, or a take.
pub ghost enum MailboxOp {
    Publish(Seq<u8>),
    Take,
}

/// `idx` places each chunk of `shown` at a position of `published` that
/// holds it, the positions strictly increasing.
pub open spec fn embeds(shown: Seq<Seq<u8>>, published: Seq<Seq<u8>>, idx: Seq<int>) -> bool {
    &&& idx.len() == shown.len()
    &&& forall|i: int|
        0 <= i < shown.len() ==> 0 <= #[trigger] idx[i] < published.len() && published[idx[i]]
            == shown[i]
    &&& forall|i: int, j: int| 0 <= i < j < shown.len() ==> #[trigger] idx[i] < #[trigger] idx[j]
}

/// `shown` is a subsequence of `published`.
pub open spec fn is_subsequence(shown: Seq<Seq<u8>>, published: Seq<Seq<u8>>) -> bool {
    exists|idx: Seq<int>| embeds(shown, published, idx)
}

/// Running `ops` on a mailbox in state `st`: the final state, the chunks
/// published, the non-empty chunks taken, and for each chunk taken the
/// position of its publish.
pub open spec fn replay_ops(st: MailboxState, ops: Seq<MailboxOp>) -> (
    MailboxState,
    Seq<Seq<u8>>,
    Seq<Seq<u8>>,
    Seq<int>,
)
    decreases ops.len(),
{
    if ops.len() == 0 {
        (st, seq![], seq![], seq![])
    } else {
        let (s, published, shown, idx) = replay_ops(st, ops.drop_last());
        match ops.last() {
            MailboxOp::Publish(c) => (s.after_publish(c), published.push(c), shown, idx),
            MailboxOp::Take => if s.pending.len() > 0 {
                (s.after_take(), published, shown.push(s.pending), idx.push(published.len() - 1))
            } else {
                (s.after_take(), published, shown, idx)
            },
        }
    }
}

proof fn lemma_replay_embeds(st: MailboxState, ops: Seq<MailboxOp>)
    requires
        st.pending.len() == 0,
    ensures
        ({
            let (s, published, shown, idx) = replay_ops(st, ops);
            &&& embeds(shown, published, idx)
            &&& s.pending.len() > 0 ==> published.len() > 0 && s.pending == published.last()
            &&& forall|i: int|
                0 <= i < idx.len() ==> #[trigger] idx[i] < published.len() - (if s.pending.len()
                    > 0 {
                    1int
                } else {
                    0int
                })
        }),
    decreases ops.len(),
{
    if ops.len() > 0 {
        lemma_replay_embeds(st, ops.drop_last());
        let (s, published, shown, idx) = replay_ops(st, ops.drop_last());
        match ops.last() {
            MailboxOp::Publish(c) => {
                assert(published.push(c).last() == c);
            },
            MailboxOp::Take => {
                if s.pending.len() > 0 {
                    let idx2 = idx.push(published.len() - 1);
                    let shown2 = shown.push(s.pending);
                    assert forall|i: int| 0 <= i < shown2.len() implies 0 <= #[trigger] idx2[i]
                        < published.len() && published[idx2[i]] == shown2[i] by {
                        if i < shown.len() {
                            assert(idx2[i] == idx[i]);
                        }
                    }
                    assert forall|i: int, j: int| 0 <= i < j < shown2.len() implies #[trigger] idx2[i]
                        < #[trigger] idx2[j] by {
                        assert(idx2[i] == idx[i]);
                    }
                }
            },
        }
    }
}

/// What the display sees of a stream is a subsequence of what its reader
/// published: starting from an empty mailbox, under any interleaving of
/// publishes and takes, the non-empty chunks taken are chunks that were
/// published, each at most once, in the order of publishing. A chunk that
/// is overwritten before a take is lost; nothing else is shown.
pub proof fn lemma_taken_chunks_are_subsequence(st: MailboxState, ops: Seq<MailboxOp>)
    requires
        st.pending.len() == 0,
    ensures
        is_subsequence(replay_ops(st, ops).2, replay_ops(st, ops).1),
{
    lemma_replay_embeds(st, ops);
    let (s, published, shown, idx) = replay_ops(st, ops);
    assert(embeds(shown, published, idx));
}

} // verus!
