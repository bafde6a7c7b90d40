use std::collections::HashSet;
use vstd::prelude::*;

verus! {

broadcast use vstd::std_specs::hash::group_hash_axioms;

/// Number of pings in the start-up burst of a synchronisation session.
pub const BURST_COUNT: usize = 50;

/// What a reported change of the link's state means for synchronisation.
#[derive(Debug, Clone, Copy, PartialEq, Eq, Structural)]
pub enum LinkChange {
    /// The link is in the reported state already: nothing happens.
    Unchanged,
    /// The link went down: a gap opens and outstanding pings are forgotten.
    Lost,
    /// The link came back: the open gap closes and pinging resumes at once.
    Restored,
}

/// Bookkeeping of the pings a synchronisation session has sent and not yet
/// seen answered, and of whether the link is up. Identifiers are handed out
/// in increasing order; a pong is matched against the outstanding
/// identifiers, so an unknown or repeated answer is recognised and ignored.
pub struct PingLedger {
    next_id: u64,
    pending: HashSet<u64>,
    connected: bool,
}

impl PingLedger {
    pub closed spec fn spec_next_id(&self) -> u64 {
        self.next_id
    }

    /// Identifiers sent and not yet answered.
    pub closed spec fn spec_pending(&self) -> Set<u64> {
        self.pending@
    }

    pub closed spec fn spec_connected(&self) -> bool {
        self.connected
    }

    /// Every outstanding identifier has been handed out already.
    pub closed spec fn wf(&self) -> bool {
        forall|id: u64| self.pending@.contains(id) ==> id < self.next_id
    }

    proof fn lemma_pending_below_next_id(&self, id: u64)
        requires
            self.wf(),
        ensures
            self.spec_pending().contains(id) ==> id < self.spec_next_id(),
    {
    }

    pub fn new() -> (pings: PingLedger)
        ensures
            pings.wf(),
            pings.spec_next_id() == 0,
            pings.spec_pending() == Set::<u64>::empty(),
            pings.spec_connected(),
    {
        PingLedger { next_id: 0, pending: HashSet::new(), connected: true }
    }

    /// Whether the link is up; pings are sent only then.
    pub fn is_connected(&self) -> (connected: bool)
        ensures
            connected == self.spec_connected(),
    {
        self.connected
    }

    /// Records a reported link state. Losing the link forgets every
    /// outstanding ping: their answers would no longer measure the path.
    pub fn link_did_change(&mut self, connected: bool) -> (change: LinkChange)
        requires
            old(self).wf(),
        ensures
            final(self).wf(),
            final(self).spec_connected() == connected,
            final(self).spec_next_id() == old(self).spec_next_id(),
            connected == old(self).spec_connected() ==> change == LinkChange::Unchanged
                && final(self).spec_pending() == old(self).spec_pending(),
            connected && !old(self).spec_connected() ==> change == LinkChange::Restored
                && final(self).spec_pending() == old(self).spec_pending(),
            !connected && old(self).spec_connected() ==> change == LinkChange::Lost
                && final(self).spec_pending() == Set::<u64>::empty(),
    {
        if connected == self.connected {
            return LinkChange::Unchanged;
        }
        self.connected = connected;
        if connected {
            LinkChange::Restored
        } else {
            self.pending.clear();
            LinkChange::Lost
        }
    }

    /// Identifier that the next ping will carry.
    pub fn next_id(&self) -> (id: u64)
        ensures
            id == self.spec_next_id(),
    {
        self.next_id
    }

    /// Number of pings awaiting an answer.
    pub fn pending_count(&self) -> (count: usize)
        ensures
            count == self.spec_pending().len(),
    {
        self.pending.len()
    }

    /// Hands out the identifier for a new ping and records it as pending.
    pub fn issue(&mut self) -> (id: u64)
        requires
            old(self).wf(),
            old(self).spec_next_id() < u64::MAX,
        ensures
            final(self).wf(),
            id == old(self).spec_next_id(),
            final(self).spec_next_id() == old(self).spec_next_id() + 1,
            final(self).spec_connected() == old(self).spec_connected(),
            final(self).spec_pending() == old(self).spec_pending().insert(id),
            !old(self).spec_pending().contains(id),
    {
        let id = self.next_id;
        self.next_id = self.next_id + 1;
        self.pending.insert(id);
        id
    }

    /// Settles the ping `id` if it is pending; `true` when it was.
    pub fn resolve(&mut self, id: u64) -> (was_pending: bool)
        requires
            old(self).wf(),
        ensures
            final(self).wf(),
            was_pending == old(self).spec_pending().contains(id),
            final(self).spec_pending() == old(self).spec_pending().remove(id),
            final(self).spec_next_id() == old(self).spec_next_id(),
            final(self).spec_connected() == old(self).spec_connected(),
    {
        self.pending.remove(&id)
    }
}

/// A ping is answered at most once: after settling `id`, a repeated pong
/// for it is no longer pending; an identifier never handed out is never
/// pending.
pub proof fn lemma_answered_ping_is_settled(ledger: &PingLedger, id: u64)
    requires
        ledger.wf(),
    ensures
        !ledger.spec_pending().remove(id).contains(id),
        id >= ledger.spec_next_id() ==> !ledger.spec_pending().contains(id),
{
    ledger.lemma_pending_below_next_id(id);
}

} // verus!
