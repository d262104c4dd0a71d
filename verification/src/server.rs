//! The registry (hub): the single authority over which sessions are
//! currently connected, and the fan-out of one payload to all of them.
//!
//! Callers that share one registry across tasks serialize access to it
//! (exclusive borrows here, a lock or a mailbox around it outside), so each
//! operation sees and leaves a consistent map: register, deregister and
//! broadcast are atomic with respect to one another.

use vstd::prelude::*;
use vstd::seq_lib::*;
use crate::handle::{try_deliver, SendHandle};
use crate::messages::{Connect, Disconnect, RegistryError, WebsocketMessage};

verus! {

/// Maps each connected session's id to its send handle. Keys are unique;
/// a session is present exactly while it is eligible to receive broadcasts.
pub struct ImageServer {
    sessions: Vec<(u128, SendHandle)>,
}

impl ImageServer {
    /// The ids currently registered, in registration order.
    pub closed spec fn key_seq(self) -> Seq<u128> {
        self.sessions@.map_values(|p: (u128, SendHandle)| p.0)
    }

    /// The set of ids currently registered: the registry's abstract state.
    pub open spec fn ids(self) -> Set<u128> {
        self.key_seq().to_set()
    }

    /// How many sessions are registered.
    pub open spec fn count(self) -> nat {
        self.key_seq().len()
    }

    /// Well-formedness: no id is tracked twice.
    pub closed spec fn wf(self) -> bool {
        self.key_seq().no_duplicates()
    }

    /// A well-formed registry has as many registered ids as sessions.
    pub proof fn lemma_count_is_ids_len(self)
        requires
            self.wf(),
        ensures
            self.ids().len() == self.count(),
            self.ids().finite(),
    {
        self.key_seq().unique_seq_to_set();
    }

    /// An empty registry: nobody receives broadcasts yet.
    pub fn new() -> (r: ImageServer)
        ensures
            r.wf(),
            r.ids() == Set::<u128>::empty(),
            r.count() == 0,
    {
        let r = ImageServer { sessions: Vec::new() };
        proof {
            assert(r.key_seq() =~= Seq::<u128>::empty());
            assert(r.ids() =~= Set::<u128>::empty());
        }
        r
    }

    /// Position of `id` among the registered ids, if it is registered.
    fn find(&self, id: u128) -> (r: Option<usize>)
        ensures
            match r {
                Some(i) => i < self.count() && self.key_seq()[i as int] == id,
                None => !self.ids().contains(id),
            },
    {
        let mut i: usize = 0;
        while i < self.sessions.len()
            invariant
                i <= self.sessions.len(),
                forall|j: int| 0 <= j < i ==> self.key_seq()[j] != id,
            decreases self.sessions.len() - i,
        {
            if self.sessions[i].0 == id {
                return Some(i);
            }
            i += 1;
        }
        proof {
            if self.ids().contains(id) {
                assert(self.key_seq().contains(id));
            }
        }
        None
    }

    /// Register: start delivering broadcasts to `id` through `handle`.
    /// Fails, and changes nothing, exactly when `id` is already present.
    pub fn register(&mut self, id: u128, handle: SendHandle) -> (r: Result<(), RegistryError>)
        requires
            old(self).wf(),
        ensures
            final(self).wf(),
            old(self).ids().contains(id) ==> {
                &&& r == Err::<(), RegistryError>(RegistryError::AlreadyExists)
                &&& *final(self) == *old(self)
            },
            !old(self).ids().contains(id) ==> {
                &&& r == Ok::<(), RegistryError>(())
                &&& final(self).ids() == old(self).ids().insert(id)
                &&& final(self).count() == old(self).count() + 1
            },
    {
        if let Some(_i) = self.find(id) {
            proof {
                assert(self.key_seq().contains(id));
                assert(self.ids().contains(id));
            }
            return Err(RegistryError::AlreadyExists);
        }
        let ghost old_keys = self.key_seq();
        self.sessions.push((id, handle));
        proof {
            assert(self.key_seq() =~= old_keys.push(id));
            assert forall|x: u128| self.key_seq().contains(x)
                <==> (old_keys.contains(x) || x == id) by {
                if self.key_seq().contains(x) {
                    let k = choose|k: int|
                        0 <= k < self.key_seq().len() && self.key_seq()[k] == x;
                    if k < old_keys.len() {
                        assert(old_keys[k] == x);
                    }
                }
                if old_keys.contains(x) {
                    let k = choose|k: int| 0 <= k < old_keys.len() && old_keys[k] == x;
                    assert(self.key_seq()[k] == x);
                }
                if x == id {
                    assert(self.key_seq()[old_keys.len() as int] == x);
                }
            }
            assert(self.ids() =~= old(self).ids().insert(id));
        }
        Ok(())
    }

    /// Deregister: stop delivering broadcasts to `id`. Fails, and changes
    /// nothing, exactly when `id` is not present, so racing a timeout
    /// against an already-finished close is harmless.
    pub fn deregister(&mut self, id: u128) -> (r: Result<(), RegistryError>)
        requires
            old(self).wf(),
        ensures
            final(self).wf(),
            !old(self).ids().contains(id) ==> {
                &&& r == Err::<(), RegistryError>(RegistryError::NotFound)
                &&& *final(self) == *old(self)
            },
            old(self).ids().contains(id) ==> {
                &&& r == Ok::<(), RegistryError>(())
                &&& final(self).ids() == old(self).ids().remove(id)
                &&& final(self).count() + 1 == old(self).count()
            },
    {
        let i = match self.find(id) {
            Some(i) => i,
            None => {
                return Err(RegistryError::NotFound);
            },
        };
        let ghost old_keys = self.key_seq();
        proof {
            assert(old_keys[i as int] == id);
            assert(old_keys.contains(id));
        }
        self.sessions.remove(i);
        proof {
            assert(self.key_seq() =~= old_keys.remove(i as int)) by {
                assert forall|j: int| 0 <= j < self.key_seq().len()
                    implies self.key_seq()[j] == old_keys.remove(i as int)[j] by {
                }
            }
            lemma_remove_keeps_no_duplicates(old_keys, i as int);
            lemma_remove_unique_to_set(old_keys, i as int);
            assert(self.ids() =~= old(self).ids().remove(id));
        }
        Ok(())
    }

    /// Broadcast: push `message` to every registered session, best effort.
    /// Returns the number of deliveries attempted, which is exactly the
    /// number of sessions registered at call time: a failed push to one
    /// recipient is swallowed and never cuts the fan-out short.
    pub fn broadcast(&self, message: &WebsocketMessage) -> (attempted: usize)
        ensures
            attempted == self.count(),
    {
        let mut i: usize = 0;
        while i < self.sessions.len()
            invariant
                i <= self.sessions.len(),
            decreases self.sessions.len() - i,
        {
            let copy = WebsocketMessage { content: message.content.clone() };
            let _delivered = try_deliver(&self.sessions[i].1, copy);
            i += 1;
        }
        i
    }

    /// Handles a session's registration request.
    pub fn handle_connect(&mut self, msg: Connect) -> (r: Result<(), RegistryError>)
        requires
            old(self).wf(),
        ensures
            final(self).wf(),
            old(self).ids().contains(msg.id) ==> {
                &&& r == Err::<(), RegistryError>(RegistryError::AlreadyExists)
                &&& final(self).ids() == old(self).ids()
            },
            !old(self).ids().contains(msg.id) ==> {
                &&& r == Ok::<(), RegistryError>(())
                &&& final(self).ids() == old(self).ids().insert(msg.id)
            },
    {
        self.register(msg.id, msg.address)
    }

    /// Handles a session's deregistration request.
    pub fn handle_disconnect(&mut self, msg: Disconnect) -> (r: Result<(), RegistryError>)
        requires
            old(self).wf(),
        ensures
            final(self).wf(),
            !old(self).ids().contains(msg.id) ==> {
                &&& r == Err::<(), RegistryError>(RegistryError::NotFound)
                &&& final(self).ids() == old(self).ids()
            },
            old(self).ids().contains(msg.id) ==> {
                &&& r == Ok::<(), RegistryError>(())
                &&& final(self).ids() == old(self).ids().remove(msg.id)
            },
    {
        self.deregister(msg.id)
    }

    /// Whether `id` currently receives broadcasts.
    pub fn contains(&self, id: u128) -> (b: bool)
        ensures
            b == self.ids().contains(id),
    {
        match self.find(id) {
            Some(_) => {
                proof {
                    assert(self.key_seq().contains(id));
                }
                true
            },
            None => false,
        }
    }

    /// How many sessions are currently registered.
    pub fn len(&self) -> (n: usize)
        ensures
            n == self.count(),
    {
        self.sessions.len()
    }
}

impl Default for ImageServer {
    /// An empty registry.
    fn default() -> (r: ImageServer)
        ensures
            r.wf(),
            r.ids() == Set::<u128>::empty(),
            r.count() == 0,
    {
        ImageServer::new()
    }
}

/// One call into the registry, at the level of its abstract state.
pub enum RegistryOp {
    Register(u128),
    Deregister(u128),
}

/// The abstract effect of one registry call on the set of registered ids:
/// a register inserts its id unless present, a deregister removes it.
pub open spec fn apply_registry_op(s: Set<u128>, op: RegistryOp) -> Set<u128> {
    match op {
        RegistryOp::Register(id) => if s.contains(id) {
            s
        } else {
            s.insert(id)
        },
        RegistryOp::Deregister(id) => s.remove(id),
    }
}

/// Whether one registry call succeeds: a register succeeds exactly when its
/// id is new, a deregister exactly when its id is present.
pub open spec fn registry_op_succeeds(s: Set<u128>, op: RegistryOp) -> bool {
    match op {
        RegistryOp::Register(id) => !s.contains(id),
        RegistryOp::Deregister(id) => s.contains(id),
    }
}

/// The set of registered ids after a whole run of registry calls.
pub open spec fn apply_registry_ops(s: Set<u128>, ops: Seq<RegistryOp>) -> Set<u128>
    decreases ops.len(),
{
    if ops.len() == 0 {
        s
    } else {
        apply_registry_ops(apply_registry_op(s, ops[0]), ops.drop_first())
    }
}

/// How many registers succeed along a run of registry calls started at `s`.
pub open spec fn successful_registers(s: Set<u128>, ops: Seq<RegistryOp>) -> int
    decreases ops.len(),
{
    if ops.len() == 0 {
        0
    } else {
        let hit: int = if ops[0] is Register && registry_op_succeeds(s, ops[0]) {
            1
        } else {
            0
        };
        hit + successful_registers(apply_registry_op(s, ops[0]), ops.drop_first())
    }
}

/// How many deregisters succeed along a run of registry calls started at
/// `s`.
pub open spec fn successful_deregisters(s: Set<u128>, ops: Seq<RegistryOp>) -> int
    decreases ops.len(),
{
    if ops.len() == 0 {
        0
    } else {
        let hit: int = if ops[0] is Deregister && registry_op_succeeds(s, ops[0]) {
            1
        } else {
            0
        };
        hit + successful_deregisters(apply_registry_op(s, ops[0]), ops.drop_first())
    }
}

/// Registration uniqueness law: after any run of registry calls, the
/// number of registered ids is the starting count plus the registers that
/// succeeded minus the deregisters that succeeded. With distinct fresh ids
/// every register succeeds, so membership count is exactly registrations
/// minus successful deregistrations.
pub proof fn lemma_registration_count(s: Set<u128>, ops: Seq<RegistryOp>)
    requires
        s.finite(),
    ensures
        apply_registry_ops(s, ops).finite(),
        apply_registry_ops(s, ops).len() == s.len() + successful_registers(s, ops)
            - successful_deregisters(s, ops),
    decreases ops.len(),
{
    broadcast use vstd::set::group_set_axioms;

    if ops.len() == 0 {
    } else {
        let s2 = apply_registry_op(s, ops[0]);
        match ops[0] {
            RegistryOp::Register(id) => {
                if !s.contains(id) {
                    assert(s2.len() == s.len() + 1);
                }
            },
            RegistryOp::Deregister(id) => {
                if s.contains(id) {
                    assert(s2.len() + 1 == s.len());
                }
            },
        }
        lemma_registration_count(s2, ops.drop_first());
    }
}

/// Idempotent deregistration law: deregistering an id a second time finds
/// nothing to do — it reports a failure rather than succeeding, and leaves
/// the set of registered ids exactly as the first deregistration left it.
pub proof fn lemma_deregister_idempotent(s: Set<u128>, id: u128)
    ensures
        !registry_op_succeeds(apply_registry_op(s, RegistryOp::Deregister(id)), RegistryOp::Deregister(id)),
        apply_registry_op(
            apply_registry_op(s, RegistryOp::Deregister(id)),
            RegistryOp::Deregister(id),
        ) == apply_registry_op(s, RegistryOp::Deregister(id)),
{
    broadcast use vstd::set::group_set_axioms;

    assert(s.remove(id).remove(id) =~= s.remove(id));
}

/// Removing one position from a duplicate-free sequence keeps it
/// duplicate-free.
proof fn lemma_remove_keeps_no_duplicates(s: Seq<u128>, i: int)
    requires
        s.no_duplicates(),
        0 <= i < s.len(),
    ensures
        s.remove(i).no_duplicates(),
{
    let t = s.remove(i);
    assert forall|p: int, q: int| 0 <= p < t.len() && 0 <= q < t.len() && p != q
        implies t[p] != t[q] by {
        let p0 = if p < i { p } else { p + 1 };
        let q0 = if q < i { q } else { q + 1 };
        assert(t[p] == s[p0]);
        assert(t[q] == s[q0]);
    }
}

/// Removing the one position holding `s[i]` from a duplicate-free sequence
/// removes exactly that value from the set of its elements.
proof fn lemma_remove_unique_to_set(s: Seq<u128>, i: int)
    requires
        s.no_duplicates(),
        0 <= i < s.len(),
    ensures
        s.remove(i).to_set() == s.to_set().remove(s[i]),
{
    let t = s.remove(i);
    assert forall|x: u128| t.to_set().contains(x)
        <==> s.to_set().contains(x) && x != s[i] by {
        if t.contains(x) {
            let k = choose|k: int| 0 <= k < t.len() && t[k] == x;
            let k0 = if k < i { k } else { k + 1 };
            assert(s[k0] == x);
            assert(s.contains(x));
            assert(x != s[i]);
        }
        if s.contains(x) && x != s[i] {
            let k0 = choose|k0: int| 0 <= k0 < s.len() && s[k0] == x;
            let k = if k0 < i { k0 } else { k0 - 1 };
            assert(t[k] == x);
            assert(t.contains(x));
        }
    }
    assert(t.to_set() =~= s.to_set().remove(s[i]));
}

} // verus!
