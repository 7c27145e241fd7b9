//! The emulated mutex: normal, error-checking and recursive flavours on top
//! of a table from mutex id to owner, lock count and waiter count.

use vstd::prelude::*;
use std::collections::HashMap;
use crate::environment::{Environment, EnvironmentView, Thread, ThreadBlock, ThreadID};
use crate::errno::{EBUSY, EDEADLK, EPERM};
use crate::fault::FatalFault;

verus! {

broadcast use vstd::std_specs::hash::group_hash_axioms;

/// Handle of a mutex. Ids are handed out in increasing order and never
/// reused.
pub type HostMutexId = u64;

/// The flavours of mutex.
#[allow(non_camel_case_types)]
#[derive(Clone, Copy, Debug, PartialEq, Eq, Structural)]
pub enum MutexType {
    /// Relocking by the holder and unlocking by anybody else are faults.
    PTHREAD_MUTEX_NORMAL,
    /// Relocking by the holder and unlocking by anybody else are reported as
    /// errors.
    PTHREAD_MUTEX_ERRORCHECK,
    /// The holder may lock again; each lock needs its own unlock.
    PTHREAD_MUTEX_RECURSIVE,
}

/// The flavour a mutex has when none is asked for.
pub const PTHREAD_MUTEX_DEFAULT: MutexType = MutexType::PTHREAD_MUTEX_NORMAL;

impl MutexType {
    /// The flavour with the given number, if there is one.
    pub open spec fn of_raw(value: i32) -> Option<MutexType> {
        if value == 0 {
            Some(MutexType::PTHREAD_MUTEX_NORMAL)
        } else if value == 1 {
            Some(MutexType::PTHREAD_MUTEX_ERRORCHECK)
        } else if value == 2 {
            Some(MutexType::PTHREAD_MUTEX_RECURSIVE)
        } else {
            None
        }
    }

    /// The number of the flavour in the guest's threading interface.
    pub open spec fn raw(self) -> i32 {
        match self {
            MutexType::PTHREAD_MUTEX_NORMAL => 0,
            MutexType::PTHREAD_MUTEX_ERRORCHECK => 1,
            MutexType::PTHREAD_MUTEX_RECURSIVE => 2,
        }
    }

    /// Converts the guest's number for a flavour.
    pub fn try_from(value: i32) -> (res: Result<MutexType, &'static str>)
        ensures
            res.ok() == MutexType::of_raw(value),
            res matches Err(msg) ==> msg@ == "Value is not a valid mutex type!"@,
    {
        match value {
            0 => Ok(MutexType::PTHREAD_MUTEX_NORMAL),
            1 => Ok(MutexType::PTHREAD_MUTEX_ERRORCHECK),
            2 => Ok(MutexType::PTHREAD_MUTEX_RECURSIVE),
            _ => Err("Value is not a valid mutex type!"),
        }
    }

    /// The guest's number for the flavour.
    pub fn to_raw(self) -> (value: i32)
        ensures
            value == self.raw(),
            MutexType::of_raw(value) == Some(self),
    {
        match self {
            MutexType::PTHREAD_MUTEX_NORMAL => 0,
            MutexType::PTHREAD_MUTEX_ERRORCHECK => 1,
            MutexType::PTHREAD_MUTEX_RECURSIVE => 2,
        }
    }
}

/// What the table holds for one mutex.
#[derive(Clone, Copy, Debug, PartialEq, Eq)]
pub struct MutexHostObject {
    /// The flavour.
    pub type_: MutexType,
    /// Number of threads that were blocked on the mutex and have not yet
    /// re-acquired it.
    pub waiting_count: u32,
    /// The holder and how many times it has locked the mutex, if it is
    /// locked.
    pub locked: Option<(ThreadID, u32)>,
}

impl MutexHostObject {
    /// A lock count is at least one, and above one only on a recursive
    /// mutex.
    pub open spec fn wf(self) -> bool {
        self.locked matches Some((_, count)) ==> count >= 1 && (count > 1 ==> self.type_
            == MutexType::PTHREAD_MUTEX_RECURSIVE)
    }

    /// A fresh, unlocked mutex of the given flavour.
    pub open spec fn fresh(type_: MutexType) -> MutexHostObject {
        MutexHostObject { type_, waiting_count: 0, locked: None }
    }

    /// Whether `thread` holds the mutex.
    pub open spec fn held_by(self, thread: ThreadID) -> bool {
        self.locked matches Some((owner, _)) && owner == thread
    }

    /// Whether a thread other than `thread` holds the mutex.
    pub open spec fn held_by_other(self, thread: ThreadID) -> bool {
        self.locked matches Some((owner, _)) && owner != thread
    }

    /// What `thread` gets when it locks the mutex.
    pub open spec fn lock_result(self, thread: ThreadID) -> Result<Result<u32, i32>, FatalFault> {
        match self.locked {
            None => Ok(Ok(1)),
            Some((owner, count)) => if owner == thread {
                match self.type_ {
                    MutexType::PTHREAD_MUTEX_NORMAL => Err(FatalFault::RelockByOwner),
                    MutexType::PTHREAD_MUTEX_ERRORCHECK => Ok(Err(EDEADLK)),
                    MutexType::PTHREAD_MUTEX_RECURSIVE => Ok(Ok((count + 1) as u32)),
                }
            } else {
                Ok(Ok(1))
            },
        }
    }

    /// The mutex after `thread` locked it: taken if it was free, one level
    /// deeper if `thread` holds it recursively, one more waiter if another
    /// thread holds it, and unchanged where locking fails.
    pub open spec fn after_lock(self, thread: ThreadID) -> MutexHostObject {
        match self.locked {
            None => MutexHostObject { locked: Some((thread, 1u32)), ..self },
            Some((owner, count)) => if owner == thread {
                if self.type_ == MutexType::PTHREAD_MUTEX_RECURSIVE {
                    MutexHostObject { locked: Some((owner, (count + 1) as u32)), ..self }
                } else {
                    self
                }
            } else {
                MutexHostObject { waiting_count: (self.waiting_count + 1) as u32, ..self }
            },
        }
    }

    /// What `thread` gets when it unlocks the mutex.
    pub open spec fn unlock_result(self, thread: ThreadID) -> Result<Result<u32, i32>, FatalFault> {
        match self.locked {
            Some((owner, count)) if owner == thread => Ok(Ok((count - 1) as u32)),
            Some(_) => if self.type_ == MutexType::PTHREAD_MUTEX_NORMAL {
                Err(FatalFault::UnlockByNonOwner)
            } else {
                Ok(Err(EPERM))
            },
            None => if self.type_ == MutexType::PTHREAD_MUTEX_NORMAL {
                Err(FatalFault::UnlockOfUnlocked)
            } else {
                Ok(Err(EPERM))
            },
        }
    }

    /// The mutex after `thread` unlocked it: free if `thread` held it once,
    /// one level shallower if it held it several times, and unchanged where
    /// unlocking fails.
    pub open spec fn after_unlock(self, thread: ThreadID) -> MutexHostObject {
        match self.locked {
            Some((owner, count)) if owner == thread => if count == 1 {
                MutexHostObject { locked: None, ..self }
            } else {
                MutexHostObject { locked: Some((owner, (count - 1) as u32)), ..self }
            },
            _ => self,
        }
    }

    /// Whether the mutex may be destroyed: nobody holds it and nobody waits
    /// for it.
    pub open spec fn idle(self) -> bool {
        self.locked is None && self.waiting_count == 0
    }
}

/// The table of all mutexes and the counter that names them.
pub struct MutexState {
    mutexes: HashMap<HostMutexId, MutexHostObject>,
    mutex_count: u64,
}

impl MutexState {
    /// The table as a map from id to record.
    pub closed spec fn table(&self) -> Map<HostMutexId, MutexHostObject> {
        self.mutexes@
    }

    /// The id the next mutex will get.
    pub closed spec fn count(&self) -> u64 {
        self.mutex_count
    }

    /// The record of the mutex `mutex_id`, if it exists.
    pub fn lookup(&self, mutex_id: HostMutexId) -> (res: Option<MutexHostObject>)
        ensures
            res == if self.table().contains_key(mutex_id) {
                Some(self.table()[mutex_id])
            } else {
                None
            },
    {
        match self.mutexes.get(&mutex_id) {
            Some(host_object) => Some(*host_object),
            None => None,
        }
    }
}

impl MutexState {
    /// Stores `host_object` under `mutex_id`, replacing what was there.
    pub(crate) fn store(&mut self, mutex_id: HostMutexId, host_object: MutexHostObject)
        ensures
            final(self).table() == old(self).table().insert(mutex_id, host_object),
            final(self).count() == old(self).count(),
    {
        self.mutexes.insert(mutex_id, host_object);
    }

    /// Hands out the next id and stores a fresh mutex under it.
    pub(crate) fn allocate(&mut self, mutex_type: MutexType) -> (mutex_id: HostMutexId)
        requires
            old(self).count() < u64::MAX,
        ensures
            mutex_id == old(self).count(),
            final(self).count() == old(self).count() + 1,
            final(self).table() == old(self).table().insert(
                mutex_id,
                MutexHostObject::fresh(mutex_type),
            ),
    {
        let mutex_id = self.mutex_count;
        self.mutex_count = self.mutex_count + 1;
        self.mutexes.insert(
            mutex_id,
            MutexHostObject { type_: mutex_type, waiting_count: 0, locked: None },
        );
        mutex_id
    }

    /// Drops the record of `mutex_id`.
    pub(crate) fn discard(&mut self, mutex_id: HostMutexId)
        ensures
            final(self).table() == old(self).table().remove(mutex_id),
            final(self).count() == old(self).count(),
    {
        self.mutexes.remove(&mutex_id);
    }
}

impl Default for MutexState {
    fn default() -> (state: MutexState)
        ensures
            state.table() == Map::<HostMutexId, MutexHostObject>::empty(),
            state.count() == 0,
    {
        MutexState { mutexes: HashMap::new(), mutex_count: 0 }
    }
}

impl EnvironmentView {
    /// The state after a mutex of the given flavour was created.
    pub open spec fn after_mutex_init(self, mutex_type: MutexType) -> EnvironmentView {
        EnvironmentView {
            mutexes: self.mutexes.insert(self.mutex_count, MutexHostObject::fresh(mutex_type)),
            mutex_count: (self.mutex_count + 1) as u64,
            ..self
        }
    }

    /// What locking `mutex_id` asks of the state: the mutex exists; where
    /// the running thread has to wait, it is not blocked already and the
    /// waiter count has room; where it locks recursively, the lock count has
    /// room.
    pub open spec fn can_lock(self, mutex_id: HostMutexId) -> bool {
        &&& self.mutexes.contains_key(mutex_id)
        &&& self.mutexes[mutex_id].held_by_other(self.current_thread) ==> {
            &&& self.current().blocked_by is NotBlocked
            &&& self.mutexes[mutex_id].waiting_count < u32::MAX
        }
        &&& self.mutexes[mutex_id].locked matches Some((owner, count)) ==> (owner
            == self.current_thread && self.mutexes[mutex_id].type_
            == MutexType::PTHREAD_MUTEX_RECURSIVE ==> count < u32::MAX)
    }

    /// The state after the running thread locked `mutex_id`. Where another
    /// thread holds the mutex, the running thread is blocked on it.
    pub open spec fn after_mutex_lock(self, mutex_id: HostMutexId) -> EnvironmentView {
        let host_object = self.mutexes[mutex_id];
        EnvironmentView {
            mutexes: self.mutexes.insert(mutex_id, host_object.after_lock(self.current_thread)),
            threads: if host_object.held_by_other(self.current_thread) {
                self.threads.update(
                    self.current_thread as int,
                    Thread { blocked_by: ThreadBlock::Mutex(mutex_id), ..self.current() },
                )
            } else {
                self.threads
            },
            ..self
        }
    }

    /// The state after the running thread unlocked `mutex_id`.
    pub open spec fn after_mutex_unlock(self, mutex_id: HostMutexId) -> EnvironmentView {
        EnvironmentView {
            mutexes: self.mutexes.insert(
                mutex_id,
                self.mutexes[mutex_id].after_unlock(self.current_thread),
            ),
            ..self
        }
    }

    /// The state after an attempt to destroy `mutex_id`: the record is gone
    /// if the mutex was idle, and nothing changed otherwise.
    pub open spec fn after_mutex_destroy(self, mutex_id: HostMutexId) -> EnvironmentView {
        if self.mutexes[mutex_id].idle() {
            EnvironmentView { mutexes: self.mutexes.remove(mutex_id), ..self }
        } else {
            self
        }
    }

    /// What re-locking `mutex_id` for a thread that was just unblocked asks
    /// of the state: locking is possible and succeeds, and the mutex still
    /// counts a waiter that no blocked thread accounts for.
    pub open spec fn can_relock(self, mutex_id: HostMutexId) -> bool {
        &&& self.can_lock(mutex_id)
        &&& self.mutexes[mutex_id].lock_result(self.current_thread) matches Ok(Ok(_))
        &&& crate::environment::waiters(self.threads, mutex_id)
            < self.mutexes[mutex_id].waiting_count
    }

    /// The state after the running thread, just unblocked, re-locked
    /// `mutex_id`: as after locking, with one waiter less.
    pub open spec fn after_mutex_relock(self, mutex_id: HostMutexId) -> EnvironmentView {
        let locked = self.after_mutex_lock(mutex_id);
        let host_object = locked.mutexes[mutex_id];
        EnvironmentView {
            mutexes: locked.mutexes.insert(
                mutex_id,
                MutexHostObject {
                    waiting_count: (host_object.waiting_count - 1) as u32,
                    ..host_object
                },
            ),
            ..locked
        }
    }

    /// Whether `mutex_id` exists and is locked.
    pub open spec fn mutex_is_locked(self, mutex_id: HostMutexId) -> bool {
        self.mutexes.contains_key(mutex_id) && self.mutexes[mutex_id].locked is Some
    }
}

/// Whether the state meets what locking `mutex_id` asks of it.
pub fn host_mutex_can_lock(env: &Environment, mutex_id: HostMutexId) -> (ok: bool)
    requires
        env@.wf(),
    ensures
        ok == env@.can_lock(mutex_id),
{
    match env.mutex_state.lookup(mutex_id) {
        None => false,
        Some(host_object) => match host_object.locked {
            None => true,
            Some((owner, count)) => if owner == env.current_thread {
                !(matches!(host_object.type_, MutexType::PTHREAD_MUTEX_RECURSIVE) && count
                    == u32::MAX)
            } else {
                !env.threads[env.current_thread].is_blocked() && host_object.waiting_count
                    < u32::MAX
            },
        },
    }
}

/// Initializes a mutex and returns a handle to it.
pub fn host_mutex_init(env: &mut Environment, mutex_type: MutexType) -> (mutex_id: HostMutexId)
    requires
        old(env)@.wf(),
        old(env)@.mutex_count < u64::MAX,
    ensures
        mutex_id == old(env)@.mutex_count,
        !old(env)@.mutexes.contains_key(mutex_id),
        final(env)@ == old(env)@.after_mutex_init(mutex_type),
        final(env)@.wf(),
{
    let mutex_id = env.mutex_state.allocate(mutex_type);
    proof {
        lemma_init_keeps_wf(old(env)@, mutex_type);
    }
    mutex_id
}

/// Locks a mutex for the running thread.
///
/// The outer result tells a fault from a call that went through; the inner
/// one is what the guest sees: the lock count, or an error number. Where
/// another thread holds the mutex, the running thread is blocked on it and
/// the count returned is the one it will hold once the scheduler has woken
/// it and re-locked the mutex for it.
pub fn host_mutex_lock(env: &mut Environment, mutex_id: HostMutexId) -> (res: Result<
    Result<u32, i32>,
    FatalFault,
>)
    requires
        old(env)@.wf(),
        old(env)@.can_lock(mutex_id),
    ensures
        res == old(env)@.mutexes[mutex_id].lock_result(old(env)@.current_thread),
        final(env)@ == old(env)@.after_mutex_lock(mutex_id),
        final(env)@.wf(),
{
    let current_thread = env.current_thread;
    let host_object = env.mutex_state.lookup(mutex_id).unwrap();
    let Some((locking_thread, lock_count)) = host_object.locked else {
        env.mutex_state.store(
            mutex_id,
            MutexHostObject { locked: Some((current_thread, 1)), ..host_object },
        );
        return Ok(Ok(1));
    };
    if locking_thread == current_thread {
        assert(env.mutex_state.table() =~= env.mutex_state.table().insert(mutex_id, host_object));
        match host_object.type_ {
            MutexType::PTHREAD_MUTEX_NORMAL => {
                return Err(FatalFault::RelockByOwner);
            },
            MutexType::PTHREAD_MUTEX_ERRORCHECK => {
                return Ok(Err(EDEADLK));
            },
            MutexType::PTHREAD_MUTEX_RECURSIVE => {
                env.mutex_state.store(
                    mutex_id,
                    MutexHostObject {
                        locked: Some((locking_thread, lock_count + 1)),
                        ..host_object
                    },
                );
                return Ok(Ok(lock_count + 1));
            },
        }
    }
    // The waiter count keeps the mutex from being destroyed while the thread
    // is blocked; re-locking after the wake-up takes it down again.
    env.mutex_state.store(
        mutex_id,
        MutexHostObject { waiting_count: host_object.waiting_count + 1, ..host_object },
    );
    env.block_on_mutex(mutex_id);
    Ok(Ok(1))
}

/// Unlocks a mutex for the running thread.
///
/// The outer result tells a fault from a call that went through; the inner
/// one is what the guest sees: the remaining lock count, or an error number.
pub fn host_mutex_unlock(env: &mut Environment, mutex_id: HostMutexId) -> (res: Result<
    Result<u32, i32>,
    FatalFault,
>)
    requires
        old(env)@.wf(),
        old(env)@.mutexes.contains_key(mutex_id),
    ensures
        res == old(env)@.mutexes[mutex_id].unlock_result(old(env)@.current_thread),
        final(env)@ == old(env)@.after_mutex_unlock(mutex_id),
        final(env)@.wf(),
{
    let current_thread = env.current_thread;
    let host_object = env.mutex_state.lookup(mutex_id).unwrap();
    proof {
        assert(env.mutex_state.table() =~= env.mutex_state.table().insert(mutex_id, host_object));
    }
    let Some((locking_thread, lock_count)) = host_object.locked else {
        match host_object.type_ {
            MutexType::PTHREAD_MUTEX_NORMAL => {
                return Err(FatalFault::UnlockOfUnlocked);
            },
            MutexType::PTHREAD_MUTEX_ERRORCHECK | MutexType::PTHREAD_MUTEX_RECURSIVE => {
                return Ok(Err(EPERM));
            },
        }
    };
    if locking_thread != current_thread {
        match host_object.type_ {
            MutexType::PTHREAD_MUTEX_NORMAL => {
                return Err(FatalFault::UnlockByNonOwner);
            },
            MutexType::PTHREAD_MUTEX_ERRORCHECK | MutexType::PTHREAD_MUTEX_RECURSIVE => {
                return Ok(Err(EPERM));
            },
        }
    }
    if lock_count == 1 {
        env.mutex_state.store(mutex_id, MutexHostObject { locked: None, ..host_object });
        Ok(Ok(0))
    } else {
        env.mutex_state.store(
            mutex_id,
            MutexHostObject { locked: Some((locking_thread, lock_count - 1)), ..host_object },
        );
        Ok(Ok(lock_count - 1))
    }
}

/// Destroys a mutex. A mutex that is locked, or that a thread still waits
/// for, is busy and stays.
pub fn host_mutex_destroy(env: &mut Environment, mutex_id: HostMutexId) -> (res: Result<(), i32>)
    requires
        old(env)@.wf(),
        old(env)@.mutexes.contains_key(mutex_id),
    ensures
        res == if old(env)@.mutexes[mutex_id].idle() {
            Ok::<(), i32>(())
        } else {
            Err::<(), i32>(EBUSY)
        },
        final(env)@ == old(env)@.after_mutex_destroy(mutex_id),
        final(env)@.wf(),
{
    let host_object = env.mutex_state.lookup(mutex_id).unwrap();
    if host_object.locked.is_some() {
        return Err(EBUSY);
    } else if host_object.waiting_count != 0 {
        return Err(EBUSY);
    }
    env.mutex_state.discard(mutex_id);
    proof {
        lemma_destroy_keeps_wf(old(env)@, mutex_id);
    }
    Ok(())
}

/// Whether the mutex exists and is locked.
pub fn host_mutex_is_locked(env: &Environment, mutex_id: HostMutexId) -> (locked: bool)
    ensures
        locked == env@.mutex_is_locked(mutex_id),
{
    match env.mutex_state.lookup(mutex_id) {
        Some(host_object) => host_object.locked.is_some(),
        None => false,
    }
}

/// Re-locks a mutex for the running thread, which was just unblocked from
/// waiting for it, and takes the thread off the mutex's waiter count.
pub fn host_mutex_relock_unblocked(env: &mut Environment, mutex_id: HostMutexId)
    requires
        old(env)@.wf(),
        old(env)@.can_relock(mutex_id),
    ensures
        final(env)@ == old(env)@.after_mutex_relock(mutex_id),
        final(env)@.wf(),
{
    let _ = host_mutex_lock(env, mutex_id);
    let host_object = env.mutex_state.lookup(mutex_id).unwrap();
    proof {
        lemma_relock_keeps_wf(old(env)@, mutex_id);
    }
    env.mutex_state.store(
        mutex_id,
        MutexHostObject { waiting_count: host_object.waiting_count - 1, ..host_object },
    );
}

/// A new mutex keeps the state well-formed: nobody waits for it yet.
proof fn lemma_init_keeps_wf(v: EnvironmentView, mutex_type: MutexType)
    requires
        v.wf(),
        v.mutex_count < u64::MAX,
    ensures
        v.after_mutex_init(mutex_type).wf(),
{
    let w = v.after_mutex_init(mutex_type);
    assert forall|id: HostMutexId| #[trigger] w.mutexes.contains_key(id) implies id < w.mutex_count
        && w.mutexes[id].wf() && crate::environment::waiters(w.threads, id)
        <= w.mutexes[id].waiting_count by {
        if id == v.mutex_count {
            crate::environment::lemma_no_waiters(v.threads, id);
        }
    }
}

/// Locking a mutex keeps the state well-formed: where the running thread
/// has to wait, the mutex counts it before it is blocked.
proof fn lemma_lock_keeps_wf(v: EnvironmentView, mutex_id: HostMutexId)
    requires
        v.wf(),
        v.can_lock(mutex_id),
    ensures
        v.after_mutex_lock(mutex_id).wf(),
{
    let w = v.after_mutex_lock(mutex_id);
    let cur = v.current_thread as int;
    assert forall|id: HostMutexId| #[trigger] w.mutexes.contains_key(id) implies id < w.mutex_count
        && w.mutexes[id].wf() && crate::environment::waiters(w.threads, id)
        <= w.mutexes[id].waiting_count by {
        if v.mutexes[mutex_id].held_by_other(v.current_thread) {
            crate::environment::lemma_waiters_update(v.threads, cur, w.threads[cur], id);
        }
    }
}

/// Destroying a mutex keeps the state well-formed: an idle mutex has no
/// waiters, so no thread is left waiting for a mutex that is gone.
proof fn lemma_destroy_keeps_wf(v: EnvironmentView, mutex_id: HostMutexId)
    requires
        v.wf(),
        v.mutexes.contains_key(mutex_id),
    ensures
        v.after_mutex_destroy(mutex_id).wf(),
{
    let w = v.after_mutex_destroy(mutex_id);
    if v.mutexes[mutex_id].idle() {
        assert forall|i: int, id: HostMutexId|
            0 <= i < w.threads.len() && #[trigger] crate::environment::waits_on(
                w.threads[i],
                id,
            ) implies w.mutexes.contains_key(id) by {
            if id == mutex_id {
                crate::environment::lemma_waiter_counted(v.threads, i, id);
            }
        }
    }
}

/// Re-locking a mutex for a thread that was just unblocked keeps the state
/// well-formed: the waiter that is taken off the count is the thread itself.
proof fn lemma_relock_keeps_wf(v: EnvironmentView, mutex_id: HostMutexId)
    requires
        v.wf(),
        v.can_relock(mutex_id),
    ensures
        v.after_mutex_relock(mutex_id).wf(),
        v.after_mutex_lock(mutex_id).mutexes[mutex_id].waiting_count >= 1,
{
    lemma_lock_keeps_wf(v, mutex_id);
    let l = v.after_mutex_lock(mutex_id);
    let cur = v.current_thread as int;
    if v.mutexes[mutex_id].held_by_other(v.current_thread) {
        crate::environment::lemma_waiters_update(v.threads, cur, l.threads[cur], mutex_id);
    }
}

} // verus!
