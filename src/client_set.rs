//! A hash set of client ids, backed by bevy's `HashSet`.

use vstd::prelude::*;

verus! {

/// Identifier of a connected client.
pub type ClientId = u64;

/// A set of client ids. Its contents are `client_set_contents(s)`.
#[verifier::external_body]
pub struct ClientIdSet {
    inner: bevy::utils::HashSet<ClientId>,
}

/// The ids held by a `ClientIdSet`.
pub uninterp spec fn client_set_contents(s: ClientIdSet) -> Set<ClientId>;

impl ClientIdSet {
    /// Relies on hashbrown's `HashSet::from_iter`: the set holds exactly the ids handed in.
    #[verifier::external_body]
    pub(crate) fn from_ids(ids: &Vec<ClientId>) -> (r: ClientIdSet)
        ensures
            client_set_contents(r) == ids@.to_set(),
    {
        ClientIdSet { inner: bevy::utils::HashSet::from_iter(ids.iter().copied()) }
    }

    /// Relies on hashbrown's `HashSet::insert`: afterwards the id is in the set.
    #[verifier::external_body]
    pub(crate) fn insert(&mut self, id: ClientId)
        ensures
            client_set_contents(*final(self)) == client_set_contents(*old(self)).insert(id),
    {
        self.inner.insert(id);
    }

    /// Relies on hashbrown's `HashSet::remove`: afterwards the id is not in the set.
    #[verifier::external_body]
    pub(crate) fn remove(&mut self, id: ClientId)
        ensures
            client_set_contents(*final(self)) == client_set_contents(*old(self)).remove(id),
    {
        self.inner.remove(&id);
    }

    /// Relies on hashbrown's `HashSet::is_empty`: true iff the set holds no id.
    #[verifier::external_body]
    pub(crate) fn is_empty(&self) -> (r: bool)
        ensures
            r <==> client_set_contents(*self) == Set::<ClientId>::empty(),
    {
        self.inner.is_empty()
    }

    /// Relies on hashbrown's `IntoIterator` for `HashSet`: each id of the set
    /// comes out once, in an order the set chooses.
    #[verifier::external_body]
    pub(crate) fn into_vec(self) -> (r: Vec<ClientId>)
        ensures
            r@.to_set() == client_set_contents(self),
            r@.no_duplicates(),
    {
        Vec::from_iter(self.inner)
    }
}

} // verus!
