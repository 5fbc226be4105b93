//! Filters that select which clients receive an entity or a message.

use vstd::prelude::*;
use crate::client_set::{ClientId, ClientIdSet, client_set_contents};

verus! {

/// The set of clients a `NetworkTarget` stands for, as a mathematical value.
pub ghost enum Audience {
    Nobody,
    AllBut(Set<ClientId>),
    Everyone,
    OnlyThese(Set<ClientId>),
}

impl Audience {
    /// Whether client `c` belongs to the audience.
    pub open spec fn includes(self, c: ClientId) -> bool {
        match self {
            Audience::Nobody => false,
            Audience::AllBut(s) => !s.contains(c),
            Audience::Everyone => true,
            Audience::OnlyThese(s) => s.contains(c),
        }
    }

    /// The audience once the clients of `ids` are taken out of it. An
    /// explicit list that becomes empty collapses to `Nobody`.
    pub open spec fn exclude(self, ids: Set<ClientId>) -> Audience {
        match self {
            Audience::Nobody => Audience::Nobody,
            Audience::AllBut(s) => Audience::AllBut(s.union(ids)),
            Audience::Everyone => Audience::AllBut(ids),
            Audience::OnlyThese(s) => if s.difference(ids) == Set::<ClientId>::empty() {
                Audience::Nobody
            } else {
                Audience::OnlyThese(s.difference(ids))
            },
        }
    }
}

/// Which clients should receive some message or entity.
#[derive(Debug, Clone, PartialEq)]
pub enum NetworkTarget {
    /// Sent to no client.
    Nobody,
    /// Sent to all clients except these.
    AllExcept(Vec<ClientId>),
    /// Sent to all clients.
    All,
    /// Sent to these clients only.
    Only(Vec<ClientId>),
}

impl View for NetworkTarget {
    type V = Audience;

    open spec fn view(&self) -> Audience {
        match self {
            NetworkTarget::Nobody => Audience::Nobody,
            NetworkTarget::AllExcept(v) => Audience::AllBut(v@.to_set()),
            NetworkTarget::All => Audience::Everyone,
            NetworkTarget::Only(v) => Audience::OnlyThese(v@.to_set()),
        }
    }
}

impl Default for NetworkTarget {
    fn default() -> (r: NetworkTarget)
        ensures
            r is Nobody,
    {
        NetworkTarget::Nobody
    }
}

/// Whether `id` occurs in `ids`.
fn contains_id(ids: &Vec<ClientId>, id: ClientId) -> (r: bool)
    ensures
        r == ids@.contains(id),
{
    let mut i: usize = 0;
    while i < ids.len()
        invariant
            i <= ids.len(),
            forall|j: int| 0 <= j < i ==> ids@[j] != id,
        decreases ids.len() - i,
    {
        if ids[i] == id {
            return true;
        }
        i = i + 1;
    }
    false
}

impl NetworkTarget {
    /// True when the id lists this target holds have no repeated id.
    pub open spec fn ids_distinct(&self) -> bool {
        match self {
            NetworkTarget::AllExcept(v) => v@.no_duplicates(),
            NetworkTarget::Only(v) => v@.no_duplicates(),
            _ => true,
        }
    }

    /// Whether a message for this target should be sent to `client_id`.
    pub fn should_send_to(&self, client_id: &ClientId) -> (r: bool)
        ensures
            r == self@.includes(*client_id),
    {
        match self {
            NetworkTarget::All => true,
            NetworkTarget::AllExcept(client_ids) => !contains_id(client_ids, *client_id),
            NetworkTarget::Only(client_ids) => contains_id(client_ids, *client_id),
            NetworkTarget::Nobody => false,
        }
    }

    /// Takes the clients of `client_ids` out of the target. `All` keeps the
    /// list as given; the other lists come out without repeated ids, in no
    /// particular order.
    pub fn exclude(&mut self, client_ids: Vec<ClientId>)
        ensures
            final(self)@ == old(self)@.exclude(client_ids@.to_set()),
            *old(self) is All ==> *final(self) == NetworkTarget::AllExcept(client_ids),
            !(*old(self) is All) ==> final(self).ids_distinct(),
    {
        let next = match &*self {
            NetworkTarget::All => NetworkTarget::AllExcept(client_ids),
            NetworkTarget::AllExcept(existing) => {
                let mut excluded = ClientIdSet::from_ids(existing);
                let mut i: usize = 0;
                while i < client_ids.len()
                    invariant
                        i <= client_ids.len(),
                        client_set_contents(excluded) == existing@.to_set().union(
                            client_ids@.subrange(0, i as int).to_set(),
                        ),
                    decreases client_ids.len() - i,
                {
                    proof {
                        lemma_prefix_to_set_push(client_ids@, i as int);
                    }
                    excluded.insert(client_ids[i]);
                    i = i + 1;
                }
                proof {
                    assert(client_ids@.subrange(0, client_ids@.len() as int) == client_ids@);
                }
                NetworkTarget::AllExcept(excluded.into_vec())
            },
            NetworkTarget::Only(existing) => {
                let mut kept = ClientIdSet::from_ids(existing);
                let mut i: usize = 0;
                while i < client_ids.len()
                    invariant
                        i <= client_ids.len(),
                        client_set_contents(kept) == existing@.to_set().difference(
                            client_ids@.subrange(0, i as int).to_set(),
                        ),
                    decreases client_ids.len() - i,
                {
                    proof {
                        lemma_prefix_to_set_push(client_ids@, i as int);
                    }
                    kept.remove(client_ids[i]);
                    i = i + 1;
                }
                proof {
                    assert(client_ids@.subrange(0, client_ids@.len() as int) == client_ids@);
                }
                if kept.is_empty() {
                    NetworkTarget::Nobody
                } else {
                    NetworkTarget::Only(kept.into_vec())
                }
            },
            NetworkTarget::Nobody => NetworkTarget::Nobody,
        };
        *self = next;
    }
}

/// Excluding the same clients a second time changes nothing: the audience
/// after two exclusions of `ids` is the audience after one.
pub proof fn lemma_exclude_idempotent(t: Audience, ids: Set<ClientId>)
    ensures
        t.exclude(ids).exclude(ids) == t.exclude(ids),
{
    match t {
        Audience::AllBut(s) => {
            assert(s.union(ids).union(ids) =~= s.union(ids));
        },
        Audience::Everyone => {
            assert(ids.union(ids) =~= ids);
        },
        Audience::OnlyThese(s) => {
            assert(s.difference(ids).difference(ids) =~= s.difference(ids));
        },
        Audience::Nobody => {},
    }
}

/// After an exclusion no excluded client is in the audience, and every other
/// client is in it exactly when it was before.
pub proof fn lemma_exclude_membership(t: Audience, ids: Set<ClientId>, c: ClientId)
    ensures
        ids.contains(c) ==> !t.exclude(ids).includes(c),
        !ids.contains(c) ==> t.exclude(ids).includes(c) == t.includes(c),
{
    if let Audience::OnlyThese(s) = t {
        if s.contains(c) && !ids.contains(c) {
            assert(s.difference(ids).contains(c));
        }
    }
}

/// The set of the first `i + 1` elements of `s` is that of the first `i`
/// with `s[i]` added.
proof fn lemma_prefix_to_set_push(s: Seq<ClientId>, i: int)
    requires
        0 <= i < s.len(),
    ensures
        s.subrange(0, i + 1).to_set() == s.subrange(0, i).to_set().insert(s[i]),
{
    assert(s.subrange(0, i + 1) == s.subrange(0, i).push(s[i]));
    s.subrange(0, i).lemma_push_to_set_commute(s[i]);
}

} // verus!
