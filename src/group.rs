//! Buffering of the instructions of one replication group for one client,
//! flushed as a single ordered message at the end of a tick.

use vstd::prelude::*;
use crate::replication::ReplicationGroupId;
use crate::visibility::ReplicationInstruction;

verus! {

/// An instruction about one entity, named by its bits.
pub type EntityInstruction = (u64, ReplicationInstruction);

/// Position of an instruction kind in a flushed message.
pub open spec fn rank(k: ReplicationInstruction) -> int {
    match k {
        ReplicationInstruction::Spawn => 0,
        ReplicationInstruction::Update => 1,
        ReplicationInstruction::Despawn => 2,
    }
}

/// Instructions of kind `k`.
pub open spec fn of_kind(k: ReplicationInstruction) -> spec_fn(EntityInstruction) -> bool {
    |x: EntityInstruction| x.1 == k
}

/// Updates whose entity is not despawned in the same buffer.
pub open spec fn live_update(buf: Seq<EntityInstruction>) -> spec_fn(EntityInstruction) -> bool {
    |x: EntityInstruction| x.1 == ReplicationInstruction::Update && !buf.contains(
        (x.0, ReplicationInstruction::Despawn),
    )
}

/// The message a buffer flushes to: its spawns, then the updates of entities
/// it does not despawn, then its despawns, each part in buffer order.
pub open spec fn flushed(buf: Seq<EntityInstruction>) -> Seq<EntityInstruction> {
    buf.filter(of_kind(ReplicationInstruction::Spawn)) + buf.filter(live_update(buf)) + buf.filter(
        of_kind(ReplicationInstruction::Despawn),
    )
}

/// Filtering a prefix one element longer adds that element if it passes.
proof fn lemma_filter_step(s: Seq<EntityInstruction>, p: spec_fn(EntityInstruction) -> bool, i: int)
    requires
        0 <= i < s.len(),
    ensures
        s.subrange(0, i + 1).filter(p) == (if p(s[i]) {
            s.subrange(0, i).filter(p).push(s[i])
        } else {
            s.subrange(0, i).filter(p)
        }),
{
    reveal(Seq::filter);
    assert(s.subrange(0, i + 1).drop_last() =~= s.subrange(0, i));
}

/// Whether `buf` despawns entity `e`.
fn despawns(buf: &Vec<EntityInstruction>, e: u64) -> (r: bool)
    ensures
        r == buf@.contains((e, ReplicationInstruction::Despawn)),
{
    let mut i: usize = 0;
    while i < buf.len()
        invariant
            i <= buf@.len(),
            forall|j: int| 0 <= j < i ==> buf@[j] != (e, ReplicationInstruction::Despawn),
        decreases buf.len() - i,
    {
        if buf[i].0 == e && buf[i].1 == ReplicationInstruction::Despawn {
            assert(buf@[i as int] == (e, ReplicationInstruction::Despawn));
            return true;
        }
        i = i + 1;
    }
    false
}

/// Appends to `out` the instructions of `buf` of kind `k`, in order; for
/// updates, only those whose entity `buf` does not despawn.
fn append_kind(buf: &Vec<EntityInstruction>, k: ReplicationInstruction, out: &mut Vec<EntityInstruction>)
    ensures
        final(out)@ == old(out)@ + buf@.filter(
            if k == ReplicationInstruction::Update {
                live_update(buf@)
            } else {
                of_kind(k)
            },
        ),
{
    let ghost p = if k == ReplicationInstruction::Update {
        live_update(buf@)
    } else {
        of_kind(k)
    };
    let mut i: usize = 0;
    proof {
        assert(buf@.subrange(0, 0).filter(p) =~= Seq::<EntityInstruction>::empty()) by {
            reveal(Seq::filter);
        }
        assert(out@ =~= old(out)@ + buf@.subrange(0, 0).filter(p));
    }
    while i < buf.len()
        invariant
            i <= buf@.len(),
            p == (if k == ReplicationInstruction::Update {
                live_update(buf@)
            } else {
                of_kind(k)
            }),
            out@ == old(out)@ + buf@.subrange(0, i as int).filter(p),
        decreases buf.len() - i,
    {
        proof {
            lemma_filter_step(buf@, p, i as int);
        }
        let item = buf[i];
        let keep = if k == ReplicationInstruction::Update {
            item.1 == ReplicationInstruction::Update && !despawns(buf, item.0)
        } else {
            item.1 == k
        };
        if keep {
            out.push(item);
        }
        proof {
            assert(out@ =~= old(out)@ + buf@.subrange(0, i + 1).filter(p));
        }
        i = i + 1;
    }
    proof {
        assert(buf@.subrange(0, buf@.len() as int) =~= buf@);
    }
}

/// Flushes a buffer of instructions into one message, ordered as `flushed`.
pub fn flush_instructions(buf: &Vec<EntityInstruction>) -> (r: Vec<EntityInstruction>)
    ensures
        r@ == flushed(buf@),
{
    let mut out: Vec<EntityInstruction> = Vec::new();
    append_kind(buf, ReplicationInstruction::Spawn, &mut out);
    append_kind(buf, ReplicationInstruction::Update, &mut out);
    append_kind(buf, ReplicationInstruction::Despawn, &mut out);
    proof {
        assert(out@ =~= flushed(buf@));
    }
    out
}

/// In a flushed message every spawn comes before every update, and every
/// update before every despawn; no update concerns an entity the message
/// despawns; and every spawn and despawn of the buffer is in the message.
pub proof fn lemma_flush_order(buf: Seq<EntityInstruction>)
    ensures
        forall|i: int, j: int|
            0 <= i < j < flushed(buf).len() ==> rank(flushed(buf)[i].1) <= rank(flushed(buf)[j].1),
        forall|i: int|
            0 <= i < flushed(buf).len() && flushed(buf)[i].1 == ReplicationInstruction::Update
                ==> !buf.contains((flushed(buf)[i].0, ReplicationInstruction::Despawn)),
        forall|i: int|
            0 <= i < buf.len() && buf[i].1 != ReplicationInstruction::Update ==> flushed(
                buf,
            ).contains(buf[i]),
{
    broadcast use vstd::seq_lib::group_filter_ensures;

    let a = buf.filter(of_kind(ReplicationInstruction::Spawn));
    let b = buf.filter(live_update(buf));
    let c = buf.filter(of_kind(ReplicationInstruction::Despawn));
    let out = flushed(buf);
    assert forall|i: int| 0 <= i < out.len() implies rank(#[trigger] out[i].1) == (if i < a.len() {
        0int
    } else if i < a.len() + b.len() {
        1int
    } else {
        2int
    }) && (out[i].1 == ReplicationInstruction::Update ==> live_update(buf)(out[i])) by {
        if i < a.len() {
            assert(out[i] == a[i]);
            assert(of_kind(ReplicationInstruction::Spawn)(a[i]));
        } else if i < a.len() + b.len() {
            assert(out[i] == b[i - a.len()]);
            assert(live_update(buf)(b[i - a.len()]));
        } else {
            assert(out[i] == c[i - a.len() - b.len()]);
            assert(of_kind(ReplicationInstruction::Despawn)(c[i - a.len() - b.len()]));
        }
    }
    assert forall|i: int| 0 <= i < buf.len() && buf[i].1 != ReplicationInstruction::Update implies out.contains(
        buf[i],
    ) by {
        if buf[i].1 == ReplicationInstruction::Spawn {
            assert(of_kind(ReplicationInstruction::Spawn)(buf[i]));
            assert(a.contains(buf[i]));
            let k = choose|k: int| 0 <= k < a.len() && a[k] == buf[i];
            assert(out[k] == buf[i]);
        } else {
            assert(of_kind(ReplicationInstruction::Despawn)(buf[i]));
            assert(c.contains(buf[i]));
            let k = choose|k: int| 0 <= k < c.len() && c[k] == buf[i];
            assert(out[a.len() + b.len() + k] == buf[i]);
        }
    }
}

/// The instructions of one replication group waiting for one client during
/// the current tick.
pub struct GroupBuffer {
    pub group: ReplicationGroupId,
    pub pending: Vec<EntityInstruction>,
}

impl GroupBuffer {
    pub fn new(group: ReplicationGroupId) -> (r: GroupBuffer)
        ensures
            r.group == group,
            r.pending@.len() == 0,
    {
        GroupBuffer { group, pending: Vec::new() }
    }

    /// Queues an instruction for `entity`.
    pub fn buffer(&mut self, entity: u64, kind: ReplicationInstruction)
        ensures
            final(self).group == old(self).group,
            final(self).pending@ == old(self).pending@.push((entity, kind)),
    {
        self.pending.push((entity, kind));
    }

    /// Closes the tick: returns the one message holding the group's
    /// instructions, and empties the buffer.
    pub fn flush(&mut self) -> (r: Vec<EntityInstruction>)
        ensures
            r@ == flushed(old(self).pending@),
            final(self).group == old(self).group,
            final(self).pending@.len() == 0,
    {
        let r = flush_instructions(&self.pending);
        self.pending = Vec::new();
        r
    }
}

} // verus!
