//! The supervisor: the public facade over the registry. It spawns actors,
//! routes messages to them by identifier, and joins them, surfacing each
//! body's outcome as a typed result.
//!
//! The registry is owned exclusively by the supervisor. Shared access is
//! Rust's `&self` borrow (any number of concurrent `send_message` readers),
//! exclusive access is the `&mut self` borrow that `spawn` and the removal
//! step of `join` take; the borrow rules make a half-inserted or
//! half-removed record unobservable. No operation of this design can poison
//! the registry: its exclusive sections are verified free of panics.

use std::sync::mpsc::Receiver;

use rustc_serialize::json::Json;

use vstd::prelude::*;
use vstd::string::StringExecFns;

use crate::actor::Actor;
use crate::error::WashedUpError;
use crate::execution::ExecutionHandle;
use crate::mailbox::channel_pair;
use crate::mailbox::channel_send;
use crate::pid::Pid;
use crate::pid::random_pid;

verus! {

/// The facade exposing spawn / send / join. It owns exactly one registry —
/// the vector of live actor records, keyed by the records' own identifiers —
/// together with the list of retired identifiers that keeps every joined
/// identifier permanently invalid, and a name for diagnostics.
pub struct Supervisor {
    actors: Vec<Actor>,
    retired: Vec<Pid>,
    pub name: String,
}

impl Supervisor {
    /// The identifiers of live actors: spawned and not yet joined. These are
    /// exactly the identifiers the registry currently maps to a record.
    pub closed spec fn live(&self) -> Set<Pid> {
        self.actors@.map_values(|a: Actor| a.uuid).to_set()
    }

    /// The identifiers of joined actors: once here, permanently invalid.
    pub closed spec fn retired_ids(&self) -> Set<Pid> {
        self.retired@.to_set()
    }

    /// The supervisor's diagnostic name.
    pub closed spec fn spec_name(&self) -> Seq<char> {
        self.name@
    }

    /// Every identifier this supervisor has ever issued.
    pub open spec fn issued(&self) -> Set<Pid> {
        self.live().union(self.retired_ids())
    }

    /// The registry's invariant: one record per identifier (no duplicates),
    /// and no live record for a retired identifier (no reuse after join).
    pub closed spec fn wf(&self) -> bool {
        &&& forall|i: int, j: int|
            0 <= i < j < self.actors@.len() ==> self.actors@[i].uuid != self.actors@[j].uuid
        &&& forall|i: int|
            0 <= i < self.actors@.len() ==> !self.retired@.contains(#[trigger] self.actors@[i].uuid)
    }

    /// An identifier is live exactly when some registry index holds it.
    proof fn lemma_live_iff_index(&self, p: Pid)
        ensures
            self.live().contains(p) <==> exists|i: int|
                0 <= i < self.actors@.len() && self.actors@[i].uuid == p,
    {
        let mapped = self.actors@.map_values(|a: Actor| a.uuid);
        if self.live().contains(p) {
            let i = choose|i: int| 0 <= i < mapped.len() && mapped[i] == p;
            assert(self.actors@[i].uuid == p);
        }
        if exists|i: int| 0 <= i < self.actors@.len() && self.actors@[i].uuid == p {
            let i = choose|i: int| 0 <= i < self.actors@.len() && self.actors@[i].uuid == p;
            assert(mapped[i] == p);
            assert(mapped.contains(p));
        }
    }

    /// Removing the record at index `i` removes exactly its identifier from
    /// the registry's identifier set, provided identifiers are unique; every
    /// surviving record is one of the old records, under a different
    /// identifier.
    proof fn lemma_remove_record(pre: Seq<Actor>, i: int)
        requires
            0 <= i < pre.len(),
            forall|j: int, k: int| 0 <= j < k < pre.len() ==> pre[j].uuid != pre[k].uuid,
        ensures
            pre.remove(i).map_values(|a: Actor| a.uuid).to_set() == pre.map_values(
                |a: Actor| a.uuid,
            ).to_set().remove(pre[i].uuid),
            forall|j: int|
                0 <= j < pre.remove(i).len() ==> pre.remove(i)[j].uuid != pre[i].uuid,
            forall|j: int|
                0 <= j < pre.remove(i).len() ==> exists|k: int|
                    0 <= k < pre.len() && pre[k] == #[trigger] pre.remove(i)[j],
    {
        let pid = pre[i].uuid;
        let post = pre.remove(i);
        let mp = pre.map_values(|a: Actor| a.uuid);
        let mq = post.map_values(|a: Actor| a.uuid);
        assert forall|j: int| 0 <= j < post.len() implies post[j].uuid != pid && (exists|k: int|
            0 <= k < pre.len() && pre[k] == post[j]) by {
            if j < i {
                assert(pre[j] == post[j]);
            } else {
                assert(pre[j + 1] == post[j]);
            }
        }
        assert forall|q: Pid| mq.to_set().contains(q) implies mp.to_set().contains(q) && q
            != pid by {
            let j = choose|j: int| 0 <= j < mq.len() && mq[j] == q;
            assert(post[j].uuid == q);
            if j < i {
                assert(mp[j] == q);
            } else {
                assert(mp[j + 1] == q);
            }
            assert(mp.contains(q));
        }
        assert forall|q: Pid| mp.to_set().contains(q) && q != pid implies mq.to_set().contains(
            q,
        ) by {
            let j = choose|j: int| 0 <= j < mp.len() && mp[j] == q;
            if j < i {
                assert(mq[j] == q);
            } else {
                assert(j != i);
                assert(mq[j - 1] == q);
            }
            assert(mq.contains(q));
        }
        assert(mq.to_set() =~= mp.to_set().remove(pid));
    }

    /// Builds a supervisor with no actors and an empty history.
    pub fn new(name: &str) -> (r: Supervisor)
        ensures
            r.wf(),
            r.spec_name() == name@,
            r.live() == Set::<Pid>::empty(),
            r.retired_ids() == Set::<Pid>::empty(),
    {
        let r = Supervisor { actors: Vec::new(), retired: Vec::new(), name: String::from_str(name) };
        proof {
            assert(r.live() =~= Set::<Pid>::empty());
            assert(r.retired_ids() =~= Set::<Pid>::empty());
        }
        r
    }

    /// The registry index holding `pid`'s record, if the identifier is live.
    fn find_actor(&self, pid: Pid) -> (r: Option<usize>)
        ensures
            match r {
                Some(i) => i < self.actors@.len() && self.actors@[i as int].uuid == pid,
                None => !self.live().contains(pid),
            },
    {
        let mut i: usize = 0;
        while i < self.actors.len()
            invariant
                i <= self.actors@.len(),
                forall|j: int| 0 <= j < i ==> self.actors@[j].uuid != pid,
            decreases self.actors@.len() - i,
        {
            if self.actors[i].uuid == pid {
                return Some(i);
            }
            i += 1;
        }
        proof {
            self.lemma_live_iff_index(pid);
        }
        None
    }

    /// Whether `pid` was ever issued: live now, or retired by a join.
    fn is_issued(&self, pid: Pid) -> (r: bool)
        ensures
            r == self.issued().contains(pid),
    {
        if let Some(i) = self.find_actor(pid) {
            proof {
                self.lemma_live_iff_index(pid);
                assert(self.actors@[i as int].uuid == pid);
            }
            return true;
        }
        let mut i: usize = 0;
        while i < self.retired.len()
            invariant
                i <= self.retired@.len(),
                !self.live().contains(pid),
                forall|j: int| 0 <= j < i ==> self.retired@[j] != pid,
            decreases self.retired@.len() - i,
        {
            if self.retired[i] == pid {
                proof {
                    assert(self.retired@[i as int] == pid);
                    assert(self.retired@.contains(pid));
                }
                return true;
            }
            i += 1;
        }
        false
    }

    /// Allocates an identifier that was never issued by this supervisor:
    /// fresh random draws, each checked against the full history. Random
    /// collisions are overwhelmingly improbable, but no number of retries
    /// can be proven sufficient, so after a bounded number of draws the
    /// allocation falls back to a bounded search that must succeed: among
    /// any n + 1 candidate values, where n identifiers have been issued,
    /// one is free.
    fn allocate_pid(&self) -> (r: Pid)
        ensures
            !self.issued().contains(r),
    {
        let mut attempts: usize = 0;
        while attempts < 16
            decreases 16 - attempts,
        {
            let pid = random_pid();
            if !self.is_issued(pid) {
                return pid;
            }
            attempts += 1;
        }
        let bound: u128 = (self.actors.len() as u128) + (self.retired.len() as u128);
        proof {
            self.lemma_issued_count_bounded();
            self.lemma_free_pid_below(bound);
        }
        let mut candidate: u128 = 0;
        loop
            invariant
                bound <= u128::MAX - 1,
                candidate <= bound,
                exists|c: u128|
                    candidate <= c <= bound && !self.issued().contains((Pid { bits: c })),
            decreases bound - candidate,
        {
            let pid = Pid::from_bits(candidate);
            if !self.is_issued(pid) {
                return pid;
            }
            candidate = candidate + 1;
        }
    }

    /// The supervisor has issued one identifier per live record and one per
    /// retired entry, so no more than their total.
    proof fn lemma_issued_count_bounded(&self)
        ensures
            self.issued().finite(),
            self.issued().len() <= self.actors@.len() + self.retired@.len(),
    {
        broadcast use vstd::seq_lib::seq_to_set_is_finite;

        self.actors@.map_values(|a: Actor| a.uuid).lemma_cardinality_of_set();
        self.retired@.lemma_cardinality_of_set();
        vstd::set_lib::lemma_len_union(self.live(), self.retired_ids());
    }

    /// Pigeonhole: fewer identifiers have been issued than there are
    /// candidate values up to `bound`, so some candidate is free.
    proof fn lemma_free_pid_below(&self, bound: u128)
        requires
            self.issued().finite(),
            self.issued().len() <= bound,
        ensures
            exists|c: u128| c <= bound && !self.issued().contains((Pid { bits: c })),
    {
        if forall|c: u128| c <= bound ==> self.issued().contains((Pid { bits: c })) {
            let candidates = Seq::new((bound + 1) as nat, |i: int| (Pid { bits: i as u128 }));
            assert forall|i: int, j: int| 0 <= i < j < candidates.len() implies candidates[i]
                != candidates[j] by {
                assert(candidates[i].bits == i as u128);
                assert(candidates[j].bits == j as u128);
            }
            assert(candidates.no_duplicates());
            candidates.unique_seq_to_set();
            assert forall|p: Pid| candidates.to_set().contains(p) implies self.issued().contains(
                p,
            ) by {
                let i = choose|i: int| 0 <= i < candidates.len() && candidates[i] == p;
                assert(p.bits == i as u128);
                assert(p.bits <= bound);
                assert(p == (Pid { bits: p.bits }));
            }
            vstd::set_lib::lemma_len_subset(candidates.to_set(), self.issued());
            assert(candidates.to_set().len() == bound + 1);
            assert(false);
        }
    }

    /// Spawns a new actor: allocates a fresh identifier, creates a mailbox,
    /// starts an execution unit running `body` against the mailbox's
    /// receiving half, and inserts the actor's record into the registry. The
    /// body executes concurrently with the caller and communicates solely
    /// through its mailbox.
    pub fn spawn<F>(&mut self, actor_name: &str, body: F) -> (r: Result<Pid, WashedUpError>) where
        F: FnOnce(Receiver<Json>) + Send + 'static,

        requires
            old(self).wf(),
            forall|inbox: Receiver<Json>| #[trigger] call_requires(body, (inbox,)),
        ensures
            final(self).wf(),
            final(self).spec_name() == old(self).spec_name(),
            r is Ok,
            r matches Ok(pid) ==> {
                &&& !old(self).issued().contains(pid)
                &&& final(self).live() == old(self).live().insert(pid)
                &&& final(self).retired_ids() == old(self).retired_ids()
            },
    {
        let pid = self.allocate_pid();
        let (mailbox_sender, mailbox_receiver) = channel_pair::<Json>();
        let join_handle = ExecutionHandle::start(actor_name, body, mailbox_receiver);
        let actor = Actor::new(join_handle, mailbox_sender, String::from_str(actor_name), pid);
        self.actors.push(actor);
        proof {
            let pre = old(self).actors@.map_values(|a: Actor| a.uuid);
            let post = self.actors@.map_values(|a: Actor| a.uuid);
            assert(post =~= pre.push(pid));
            pre.lemma_push_to_set_commute(pid);
            assert(self.live() =~= old(self).live().insert(pid));
            assert(self.retired_ids() =~= old(self).retired_ids());
            old(self).lemma_live_iff_index(pid);
            assert forall|ii: int, jj: int|
                0 <= ii < jj < self.actors@.len() implies self.actors@[ii].uuid
                != self.actors@[jj].uuid by {
                if jj + 1 == self.actors@.len() {
                    assert(self.actors@[ii] == old(self).actors@[ii]);
                }
            }
        }
        Ok(pid)
    }

    /// Sends a message to a live actor's mailbox. Returns `InvalidPid`
    /// exactly when the identifier maps to no live actor, and `SendFailed`,
    /// handing the message back, when the mailbox has already closed.
    pub fn send_message(&self, pid: Pid, message: Json) -> (r: Result<(), WashedUpError>)
        ensures
            !self.live().contains(pid) ==> r == Err::<(), WashedUpError>(WashedUpError::InvalidPid(pid)),
            match r {
                Ok(u) => self.live().contains(pid),
                Err(e) => match e {
                    WashedUpError::InvalidPid(p) => p == pid && !self.live().contains(pid),
                    WashedUpError::SendFailed(m) => self.live().contains(pid) && m == message,
                    _ => false,
                },
            },
    {
        match self.find_actor(pid) {
            Some(i) => {
                proof {
                    self.lemma_live_iff_index(pid);
                    assert(self.actors@[i as int].uuid == pid);
                }
                match channel_send(&self.actors[i].mailbox, message) {
                    Ok(u) => Ok(u),
                    Err(m) => Err(WashedUpError::SendFailed(m)),
                }
            },
            None => Err(WashedUpError::InvalidPid(pid)),
        }
    }

    /// Joins a live actor: removes its record from the registry, retires its
    /// identifier permanently, and only then blocks until the body has
    /// finished running, reporting the outcome — `Ok` for a body that ran to
    /// completion, `ActorPanic` for one that terminated abnormally. Returns
    /// `InvalidPid`, changing nothing, exactly when the identifier maps to
    /// no live actor.
    pub fn join(&mut self, pid: Pid) -> (r: Result<(), WashedUpError>)
        requires
            old(self).wf(),
        ensures
            final(self).wf(),
            final(self).spec_name() == old(self).spec_name(),
            !old(self).live().contains(pid) ==> {
                &&& r == Err::<(), WashedUpError>(WashedUpError::InvalidPid(pid))
                &&& *final(self) == *old(self)
            },
            old(self).live().contains(pid) ==> {
                &&& final(self).live() == old(self).live().remove(pid)
                &&& final(self).retired_ids() == old(self).retired_ids().insert(pid)
                &&& final(self).issued() == old(self).issued()
                &&& match r {
                    Ok(u) => true,
                    Err(e) => e matches WashedUpError::ActorPanic(payload)
                        && payload@ == "Unknown panic in actor"@,
                }
            },
    {
        match self.find_actor(pid) {
            Some(i) => {
                proof {
                    self.lemma_live_iff_index(pid);
                    assert(self.actors@[i as int].uuid == pid);
                }
                let actor = self.actors.remove(i);
                self.retired.push(pid);
                proof {
                    Self::lemma_remove_record(old(self).actors@, i as int);
                    old(self).retired@.lemma_push_to_set_commute(pid);
                    assert(self.live() =~= old(self).live().remove(pid));
                    assert(self.retired_ids() =~= old(self).retired_ids().insert(pid));
                    assert(self.issued() =~= old(self).issued());
                    assert forall|jj: int|
                        0 <= jj < self.actors@.len() implies !self.retired@.contains(
                        #[trigger] self.actors@[jj].uuid,
                    ) by {
                        let k = choose|k: int|
                            0 <= k < old(self).actors@.len() && old(self).actors@[k]
                                == self.actors@[jj];
                        assert(!old(self).retired@.contains(self.actors@[jj].uuid));
                        assert(self.actors@[jj].uuid != pid);
                        assert forall|m: int|
                            0 <= m < self.retired@.len() implies self.retired@[m]
                            != self.actors@[jj].uuid by {
                            if m < old(self).retired@.len() {
                                assert(self.retired@[m] == old(self).retired@[m]);
                                assert(old(self).retired@.contains(old(self).retired@[m]));
                            } else {
                                assert(self.retired@[m] == pid);
                            }
                        }
                    }
                }
                match actor.join_handle.join() {
                    Ok(u) => Ok(u),
                    Err(_) => Err(WashedUpError::ActorPanic(String::from_str("Unknown panic in actor"))),
                }
            },
            None => Err(WashedUpError::InvalidPid(pid)),
        }
    }
}

/// Law: identifiers returned by distinct spawns are pairwise distinct.
///
/// A spawn returns an identifier outside the issued set and makes it live,
/// hence issued; operations between the two spawns can only grow the issued
/// set. So by the time the second spawn draws its identifier from outside
/// the issued set, the first one's identifier is still inside it.
pub proof fn lemma_spawned_pids_distinct(
    s0: Supervisor,
    s1: Supervisor,
    p1: Pid,
    s2: Supervisor,
    p2: Pid,
)
    requires
        !s0.issued().contains(p1),
        s1.live() == s0.live().insert(p1),
        s1.retired_ids() == s0.retired_ids(),
        s1.issued().subset_of(s2.issued()),
        !s2.issued().contains(p2),
    ensures
        p1 != p2,
{
    assert(s1.live().contains(p1));
    assert(s1.issued().contains(p1));
}

/// Law: the issued set never shrinks across a spawn: the new state's issued
/// set contains everything the old one did. Together with `join`'s contract,
/// which keeps the issued set equal, and `send_message`, which changes no
/// state, no operation ever forgets an issued identifier.
pub proof fn lemma_spawn_grows_issued(pre: Supervisor, post: Supervisor, pid: Pid)
    requires
        post.live() == pre.live().insert(pid),
        post.retired_ids() == pre.retired_ids(),
    ensures
        pre.issued().subset_of(post.issued()),
        post.issued().contains(pid),
{
    assert(post.live().contains(pid));
}

/// Law: an identifier that was never issued is not live, so — by
/// `send_message`'s and `join`'s contracts — sending to it or joining it
/// returns `InvalidPid`.
pub proof fn lemma_unissued_never_live(s: Supervisor, pid: Pid)
    requires
        !s.issued().contains(pid),
    ensures
        !s.live().contains(pid),
{
}

/// Law: a retired identifier is never live. With `send_message`'s and
/// `join`'s contracts, which return `InvalidPid` exactly on non-live
/// identifiers, every send or join on a joined identifier fails with
/// `InvalidPid`; and with `spawn`'s contract, which returns an identifier
/// from outside the issued set, a joined identifier is never issued again.
pub proof fn lemma_retired_never_live(s: Supervisor, pid: Pid)
    requires
        s.wf(),
        s.retired_ids().contains(pid),
    ensures
        !s.live().contains(pid),
{
    if s.live().contains(pid) {
        s.lemma_live_iff_index(pid);
        let i = choose|i: int| 0 <= i < s.actors@.len() && s.actors@[i].uuid == pid;
        assert(!s.retired@.contains(s.actors@[i].uuid));
    }
}

/// Law: a successful join retires its identifier permanently. In any later
/// well-formed state whose retired set still holds the identifier — and the
/// operations' contracts only ever grow the retired set — the identifier is
/// not live, so any later send or join on it returns `InvalidPid`.
pub proof fn lemma_joined_stays_invalid(joined: Supervisor, later: Supervisor, pid: Pid)
    requires
        joined.retired_ids().contains(pid),
        joined.retired_ids().subset_of(later.retired_ids()),
        later.wf(),
    ensures
        !later.live().contains(pid),
{
    lemma_retired_never_live(later, pid);
}

/// Law: spawned records are never lost: an identifier that is live stays
/// live across a spawn of any fresh identifier and across a join of any
/// other identifier, and `send_message`'s contract keeps `InvalidPid` for
/// exactly the non-live identifiers — so every spawned identifier stays
/// reachable until its own join. That no identifier is ever duplicated is
/// the registry invariant `wf`: one record per identifier, which every
/// operation preserves.
pub proof fn lemma_live_until_joined(pre: Supervisor, post: Supervisor, p: Pid, q: Pid)
    requires
        pre.live().contains(p),
        p != q,
        post.live() == pre.live().insert(q) || post.live() == pre.live().remove(q) || post.live()
            == pre.live(),
    ensures
        post.live().contains(p),
{
}

} // verus!
