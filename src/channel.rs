//! Receiving ends of the channel kinds whose delivery rules are decided on
//! arrival: unreliable-sequenced and reliable-ordered.

use vstd::prelude::*;

verus! {

/// Reliability and ordering tier of a channel.
#[derive(Debug, Clone, Copy, PartialEq, Eq, Structural)]
pub enum ChannelKind {
    ReliableOrdered,
    ReliableUnordered,
    UnreliableSequenced,
    UnreliableUnordered,
}

/// Whether a sequenced channel that last surfaced `last` surfaces `seq`.
pub open spec fn sequenced_accepts(last: Option<u64>, seq: u64) -> bool {
    match last {
        None => true,
        Some(l) => seq > l,
    }
}

/// Receiving end of an unreliable-sequenced channel: a message older than, or
/// equal to, the newest one already surfaced is dropped.
pub struct SequencedReceiver {
    /// Sequence number of the newest message surfaced so far.
    pub last: Option<u64>,
}

impl SequencedReceiver {
    pub fn new() -> (r: SequencedReceiver)
        ensures
            r.last is None,
    {
        SequencedReceiver { last: None }
    }

    /// Handles the arrival of message `seq`; returns whether it is surfaced
    /// to the application.
    pub fn receive(&mut self, seq: u64) -> (r: bool)
        ensures
            r == sequenced_accepts(old(self).last, seq),
            final(self).last == (if r {
                Some(seq)
            } else {
                old(self).last
            }),
    {
        let accept = match self.last {
            None => true,
            Some(l) => seq > l,
        };
        if accept {
            self.last = Some(seq);
        }
        accept
    }

    /// Handles the messages that arrived together during one poll: only the
    /// newest of them is surfaced, and only if it is newer than the last one
    /// surfaced; all the others are dropped.
    pub fn receive_batch(&mut self, seqs: &Vec<u64>) -> (r: Option<u64>)
        ensures
            r is Some ==> batch_surfaces(old(self).last, seqs@, r->Some_0),
            r is None <==> forall|i: int| 0 <= i < seqs@.len() ==> !sequenced_accepts(old(self).last, #[trigger] seqs@[i]),
            final(self).last == (match r {
                Some(m) => Some(m),
                None => old(self).last,
            }),
    {
        if seqs.len() == 0 {
            return None;
        }
        let mut best: u64 = seqs[0];
        let mut i: usize = 1;
        while i < seqs.len()
            invariant
                1 <= i <= seqs@.len(),
                seqs@.contains(best),
                forall|j: int| 0 <= j < i ==> seqs@[j] <= best,
            decreases seqs.len() - i,
        {
            if seqs[i] > best {
                best = seqs[i];
            }
            i = i + 1;
        }
        let accept = match self.last {
            None => true,
            Some(l) => best > l,
        };
        if accept {
            self.last = Some(best);
            Some(best)
        } else {
            proof {
                assert forall|j: int| 0 <= j < seqs@.len() implies !sequenced_accepts(old(self).last, #[trigger] seqs@[j]) by {
                    assert(seqs@[j] <= best);
                }
            }
            None
        }
    }
}

/// `m` is what one poll of a sequenced channel that last surfaced `last`
/// surfaces from the batch `seqs`: the highest number of the batch, which
/// must be newer than `last`.
pub open spec fn batch_surfaces(last: Option<u64>, seqs: Seq<u64>, m: u64) -> bool {
    &&& seqs.contains(m)
    &&& sequenced_accepts(last, m)
    &&& forall|i: int| 0 <= i < seqs.len() ==> seqs[i] <= m
}

/// What a sequenced channel remembers as newest after message `seq` arrives.
pub open spec fn sequenced_after(last: Option<u64>, seq: u64) -> Option<u64> {
    if sequenced_accepts(last, seq) {
        Some(seq)
    } else {
        last
    }
}

/// The newest message surfaced so far is `s` or a later one.
pub open spec fn surfaced_at_least(last: Option<u64>, s: u64) -> bool {
    match last {
        None => false,
        Some(l) => l >= s,
    }
}

/// Of two messages `s1 < s2` on a sequenced channel, once `s2` has been
/// surfaced it stays the floor whatever arrives next, and `s1` is never
/// surfaced after it.
pub proof fn lemma_sequenced_keeps_newest(last: Option<u64>, s1: u64, s2: u64, next: u64)
    requires
        s1 < s2,
    ensures
        sequenced_accepts(last, s2) ==> surfaced_at_least(sequenced_after(last, s2), s2),
        surfaced_at_least(last, s2) ==> surfaced_at_least(sequenced_after(last, next), s2),
        surfaced_at_least(last, s2) ==> !sequenced_accepts(last, s1),
{
}

/// When messages `s1 < s2` are pending together at one poll, the older one
/// is never the one surfaced.
pub proof fn lemma_batch_drops_older(last: Option<u64>, seqs: Seq<u64>, m: u64, s1: u64, s2: u64)
    requires
        batch_surfaces(last, seqs, m),
        seqs.contains(s1),
        seqs.contains(s2),
        s1 < s2,
    ensures
        m != s1,
        m >= s2,
{
}

/// A message waiting in a reliable-ordered receiver: sequence number and payload.
pub type Pending = (u64, Vec<u8>);

/// Receiving end of a reliable-ordered channel: messages are handed to the
/// application exactly once, in sequence order, with no gap.
pub struct OrderedReceiver {
    /// Sequence number of the next message to hand out.
    pub next: u64,
    /// Messages that arrived ahead of `next`.
    pub pending: Vec<Pending>,
}

/// `r` hands out the messages numbered `from` up to, not including, `to`,
/// in that order, each once.
pub open spec fn delivers_in_order(r: Seq<Pending>, from: u64, to: u64) -> bool {
    &&& from <= to
    &&& r.len() == to - from
    &&& forall|i: int| 0 <= i < r.len() ==> #[trigger] r[i].0 == from + i
}

/// Two successive deliveries of a reliable-ordered receiver form one
/// delivery: across calls every message comes after all lower-numbered ones,
/// and within the stream a lower number always comes first.
pub proof fn lemma_ordered_deliveries_chain(
    r1: Seq<Pending>,
    r2: Seq<Pending>,
    a: u64,
    b: u64,
    c: u64,
)
    requires
        delivers_in_order(r1, a, b),
        delivers_in_order(r2, b, c),
    ensures
        delivers_in_order(r1 + r2, a, c),
        forall|i: int, j: int|
            0 <= i < j < (r1 + r2).len() ==> (r1 + r2)[i].0 < (r1 + r2)[j].0,
{
    let r = r1 + r2;
    assert forall|i: int| 0 <= i < r.len() implies #[trigger] r[i].0 == a + i by {
        if i >= r1.len() {
            assert(r[i] == r2[i - r1.len()]);
        }
    }
}

/// Position of the message numbered `seq` in `pending`, if any.
fn find_pending(pending: &Vec<Pending>, seq: u64) -> (r: Option<usize>)
    ensures
        match r {
            Some(j) => j < pending@.len() && pending@[j as int].0 == seq,
            None => forall|k: int| 0 <= k < pending@.len() ==> pending@[k].0 != seq,
        },
{
    let mut i: usize = 0;
    while i < pending.len()
        invariant
            i <= pending@.len(),
            forall|k: int| 0 <= k < i ==> pending@[k].0 != seq,
        decreases pending.len() - i,
    {
        if pending[i].0 == seq {
            return Some(i);
        }
        i = i + 1;
    }
    None
}

impl OrderedReceiver {
    /// Every waiting message is numbered `next` or later, each number once.
    pub open spec fn waiting_ahead(&self) -> bool {
        &&& forall|k: int| 0 <= k < self.pending@.len() ==> self.pending@[k].0 >= self.next
        &&& forall|a: int, b: int|
            0 <= a < b < self.pending@.len() ==> self.pending@[a].0 != self.pending@[b].0
    }

    /// Messages wait only for a gap before them: the next one is never
    /// waiting, unless it is the last number.
    pub open spec fn wf(&self) -> bool {
        &&& self.waiting_ahead()
        &&& self.next < u64::MAX ==> forall|k: int|
            0 <= k < self.pending@.len() ==> self.pending@[k].0 != self.next
    }

    pub fn new() -> (r: OrderedReceiver)
        ensures
            r.wf(),
            r.next == 0,
            r.pending@.len() == 0,
    {
        OrderedReceiver { next: 0, pending: Vec::new() }
    }

    /// Handles the arrival of message `seq`, and returns the messages that
    /// can now be handed out: numbered `next`, `next + 1`, ... with no gap.
    /// A message already handed out or already waiting is a duplicate and is
    /// dropped. Number `u64::MAX` is never handed out.
    pub fn receive(&mut self, seq: u64, payload: Vec<u8>) -> (r: Vec<Pending>)
        requires
            old(self).wf(),
        ensures
            final(self).wf(),
            final(self).next >= old(self).next,
            delivers_in_order(r@, old(self).next, final(self).next),
            forall|i: int|
                0 <= i < r@.len() ==> #[trigger] r@[i] == (seq, payload) || old(
                    self,
                ).pending@.contains(r@[i]),
            seq == old(self).next && seq < u64::MAX ==> r@.len() >= 1,
            seq < old(self).next ==> r@.len() == 0 && final(self).pending@ == old(self).pending@,
            seq > old(self).next && (forall|k: int| 0 <= k < old(self).pending@.len() ==> old(self).pending@[k].0 != seq)
                ==> r@.len() == 0 && final(self).pending@ == old(self).pending@.push((seq, payload)),
    {
        if seq >= self.next {
            match find_pending(&self.pending, seq) {
                None => {
                    self.pending.push((seq, payload));
                    assert(self.pending@[self.pending@.len() - 1].0 == seq);
                },
                Some(_) => {},
            }
        }
        let ghost start = self.next;
        let ghost arrived = self.pending@;
        let mut out: Vec<Pending> = Vec::new();
        loop
            invariant
                self.waiting_ahead(),
                self.next >= start,
                self.next == start ==> self.pending@ == arrived,
                (start < u64::MAX && forall|k: int| 0 <= k < arrived.len() ==> arrived[k].0 != start)
                    ==> self.next == start,
                out@.len() == self.next - start,
                forall|i: int| 0 <= i < out@.len() ==> #[trigger] out@[i].0 == start + i,
                forall|i: int| 0 <= i < out@.len() ==> arrived.contains(#[trigger] out@[i]),
                forall|k: int| 0 <= k < self.pending@.len() ==> arrived.contains(#[trigger] self.pending@[k]),
            ensures
                self.wf(),
                self.next >= start,
                out@.len() == self.next - start,
                forall|i: int| 0 <= i < out@.len() ==> #[trigger] out@[i].0 == start + i,
                forall|i: int| 0 <= i < out@.len() ==> arrived.contains(#[trigger] out@[i]),
                self.next == start ==> self.pending@ == arrived,
                (start < u64::MAX && forall|k: int| 0 <= k < arrived.len() ==> arrived[k].0 != start)
                    ==> self.next == start,
            decreases self.pending@.len(),
        {
            if self.next == u64::MAX {
                break;
            }
            match find_pending(&self.pending, self.next) {
                None => {
                    break;
                },
                Some(j) => {
                    let ghost before = self.pending@;
                    let item = self.pending.remove(j);
                    assert(forall|k: int| 0 <= k < self.pending@.len() ==> self.pending@[k] == if k < j {
                        before[k]
                    } else {
                        before[k + 1]
                    });
                    out.push(item);
                    self.next = self.next + 1;
                },
            }
        }
        proof {
            if seq < start {
                assert(arrived == old(self).pending@);
            }
        }
        out
    }
}

/// Why a reliable channel refuses a message.
#[derive(Debug, Clone, Copy, PartialEq, Eq, Structural)]
pub enum ChannelError {
    /// Too many messages are waiting for an acknowledgement.
    ChannelOverflow,
}

/// Sending end of a reliable channel: messages are kept until acknowledged,
/// and no more than `max_unacked` of them at a time.
pub struct ReliableSender {
    /// Sequence number of the next message sent.
    pub next_seq: u64,
    /// Messages sent and not yet acknowledged.
    pub unacked: Vec<Pending>,
    pub max_unacked: usize,
}

impl ReliableSender {
    pub fn new(max_unacked: usize) -> (r: ReliableSender)
        ensures
            r.next_seq == 0,
            r.unacked@.len() == 0,
            r.max_unacked == max_unacked,
    {
        ReliableSender { next_seq: 0, unacked: Vec::new(), max_unacked }
    }

    /// Sends `payload` under the next sequence number, or refuses it when
    /// the bound of unacknowledged messages is reached (or the numbers are
    /// spent); a refused send changes nothing.
    pub fn send(&mut self, payload: Vec<u8>) -> (r: Result<u64, ChannelError>)
        ensures
            r is Err <==> (old(self).unacked@.len() >= old(self).max_unacked || old(self).next_seq == u64::MAX),
            final(self).max_unacked == old(self).max_unacked,
            r is Err ==> final(self).next_seq == old(self).next_seq && final(self).unacked@ == old(self).unacked@,
            r is Ok ==> r == Ok::<u64, ChannelError>(old(self).next_seq) && final(self).next_seq == old(self).next_seq + 1
                && final(self).unacked@ == old(self).unacked@.push((old(self).next_seq, payload)),
    {
        if self.unacked.len() >= self.max_unacked || self.next_seq == u64::MAX {
            return Err(ChannelError::ChannelOverflow);
        }
        let seq = self.next_seq;
        self.unacked.push((seq, payload));
        self.next_seq = seq + 1;
        Ok(seq)
    }

    /// Handles the acknowledgement of message `seq`: it is no longer kept.
    /// Returns whether it was waiting.
    pub fn ack(&mut self, seq: u64) -> (r: bool)
        ensures
            final(self).next_seq == old(self).next_seq,
            final(self).max_unacked == old(self).max_unacked,
            r == exists|j: int| 0 <= j < old(self).unacked@.len() && old(self).unacked@[j].0 == seq,
            !r ==> final(self).unacked@ == old(self).unacked@,
            r ==> exists|j: int|
                0 <= j < old(self).unacked@.len() && old(self).unacked@[j].0 == seq && final(self).unacked@
                    == old(self).unacked@.remove(j),
    {
        match find_pending(&self.unacked, seq) {
            Some(j) => {
                self.unacked.remove(j);
                true
            },
            None => false,
        }
    }
}

} // verus!
