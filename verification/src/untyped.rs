//! The shareable, type-erased handle to one resource container.
//!
//! A handle is a shared reference to a lock-protected [`ResourceState`].
//! Clones refer to the same container; identity, equality and the key are
//! those of the container, never of its content. The tag of the data type a
//! container is for is fixed when the container is created and every value
//! ever stored under its lock carries that tag.

use vstd::prelude::*;
use vstd::rwlock::RwLock;
use vstd::rwlock::RwLockPredicate;
use vstd::rwlock::WriteHandle;

use std::sync::Arc;

use crate::data::LoadError;
use crate::data::ResourceData;
use crate::state::CommitError;
use crate::state::PollOutcome;
use crate::state::ResourceState;

verus! {

/// The invariant of one container's lock: every state ever stored in it
/// carries the type tag the container was created with.
pub struct TagInvariant {
    /// The fixed tag of the container.
    pub tag: u64,
}

impl<E: ResourceData> RwLockPredicate<ResourceState<E>> for TagInvariant {
    open spec fn inv(self, state: ResourceState<E>) -> bool {
        state.spec_type_tag() == self.tag
    }
}

/// Relies on `Arc::clone`: the clone is a second reference to the same
/// allocation, hence the same value.
#[verifier::external_body]
fn clone_arc<T>(arc: &Arc<T>) -> (result: Arc<T>)
    ensures
        result == *arc,
{
    Arc::clone(arc)
}

/// Relies on `Arc::as_ptr`: the address of the shared allocation, stored
/// once at construction as the container's identity key. Nothing is assumed
/// of its value.
#[verifier::external_body]
fn allocation_key<T>(arc: &Arc<T>) -> usize {
    Arc::as_ptr(arc) as usize
}

/// Relies on `Arc::strong_count`: the number of live handles sharing the
/// allocation. It is at least one, since `arc` itself is alive.
#[verifier::external_body]
fn shared_count<T>(arc: &Arc<T>) -> (count: usize)
    ensures
        count >= 1,
{
    Arc::strong_count(arc)
}

/// A shareable, clonable, type-erased reference to one resource container.
pub struct UntypedResource<E: ResourceData> {
    key: usize,
    lock: Arc<RwLock<ResourceState<E>, TagInvariant>>,
}

/// Exclusive access to the state of one container, held until
/// [`StateGuard::release`]. While the guard lives, no other holder of any
/// handle to the same container can read or write the state.
pub struct StateGuard<'a, E: ResourceData> {
    state: ResourceState<E>,
    handle: WriteHandle<'a, ResourceState<E>, TagInvariant>,
}

impl<E: ResourceData> UntypedResource<E> {
    /// The identity key of the container this handle refers to. Clones of a
    /// handle share it; it never changes over the container's lifetime.
    pub closed spec fn spec_key(self) -> usize {
        self.key
    }

    /// The tag of the data type the container is for, fixed at creation.
    pub closed spec fn spec_type_tag(self) -> u64 {
        (*self.lock).pred().tag
    }

    /// A fresh container in pending state, owned by no one else yet.
    pub fn new_pending(path: String, type_tag: u64) -> (resource: Self)
        ensures
            resource.spec_type_tag() == type_tag,
    {
        let state = ResourceState::<E>::new_pending(path, type_tag);
        let lock = RwLock::new(state, Ghost(TagInvariant { tag: type_tag }));
        let arc = Arc::new(lock);
        let key = allocation_key(&arc);
        UntypedResource { key, lock: arc }
    }

    /// A fresh container that is already loaded with `data`.
    pub fn new_ok(data: E) -> (resource: Self)
        ensures
            resource.spec_type_tag() == data.spec_type_tag(),
    {
        let tag = data.type_tag();
        let state = ResourceState::new_ok(data);
        let lock = RwLock::new(state, Ghost(TagInvariant { tag }));
        let arc = Arc::new(lock);
        let key = allocation_key(&arc);
        UntypedResource { key, lock: arc }
    }

    /// A fresh container whose load already failed with `error`.
    pub fn new_load_error(path: String, error: LoadError, type_tag: u64) -> (resource: Self)
        ensures
            resource.spec_type_tag() == type_tag,
    {
        let state = ResourceState::<E>::new_load_error(path, error, type_tag);
        let lock = RwLock::new(state, Ghost(TagInvariant { tag: type_tag }));
        let arc = Arc::new(lock);
        let key = allocation_key(&arc);
        UntypedResource { key, lock: arc }
    }

    /// The identity key: a stable number shared by every clone of this
    /// handle, usable as a hash or equality surrogate for the container.
    pub fn key(&self) -> (key: usize)
        ensures
            key == self.spec_key(),
    {
        self.key
    }

    /// The number of live handles currently sharing the container. For
    /// diagnostics and eviction decisions; it can change concurrently.
    pub fn use_count(&self) -> (count: usize)
        ensures
            count >= 1,
    {
        shared_count(&self.lock)
    }

    /// Reads the container's fixed type tag.
    pub fn type_tag(&self) -> (tag: u64)
        ensures
            tag == self.spec_type_tag(),
    {
        let read = self.lock.acquire_read();
        let tag = read.borrow().type_tag();
        read.release_read();
        tag
    }

    /// Acquires exclusive access to the container's state, waiting until no
    /// other holder has it. The state read and written through the guard
    /// carries the container's fixed tag.
    pub fn acquire_state(&self) -> (guard: StateGuard<'_, E>)
        ensures
            guard.wf(),
            guard.spec_type_tag() == self.spec_type_tag(),
    {
        let (state, handle) = self.lock.acquire_write();
        StateGuard { state, handle }
    }

    /// True if a snapshot of the state taken now is still pending. The
    /// answer can be outdated as soon as it is returned.
    pub fn is_loading(&self) -> bool {
        let read = self.lock.acquire_read();
        let loading = match read.borrow() {
            ResourceState::Pending { .. } => true,
            _ => false,
        };
        read.release_read();
        loading
    }

    /// True if a snapshot of the state taken now is loaded and ready for
    /// use. Terminal states never change, so a true answer stays true.
    pub fn is_ok(&self) -> bool {
        let read = self.lock.acquire_read();
        let loaded = match read.borrow() {
            ResourceState::Loaded { .. } => true,
            _ => false,
        };
        read.release_read();
        loaded
    }

    /// True if a snapshot of the state taken now is a failed load. Terminal
    /// states never change, so a true answer stays true.
    pub fn is_failed_to_load(&self) -> bool {
        let read = self.lock.acquire_read();
        let failed = match read.borrow() {
            ResourceState::LoadError { .. } => true,
            _ => false,
        };
        read.release_read();
        failed
    }

    /// A copy of the container's current path.
    pub fn path(&self) -> String {
        let read = self.lock.acquire_read();
        let path = read.borrow().path().clone();
        read.release_read();
        path
    }

    /// Replaces the container's path; everything else is untouched.
    pub fn set_path(&self, new_path: String) {
        let mut guard = self.acquire_state();
        guard.set_path(new_path);
        guard.release();
    }

    /// Commits the single successful transition: if the container is still
    /// pending it becomes loaded with `data` and the waiters to wake, each
    /// exactly once, are handed back; if it is already terminal the commit
    /// is rejected and nothing changes.
    pub fn commit_ok(&self, data: E) -> (result: Result<Vec<u64>, CommitError>)
        requires
            data.spec_type_tag() == self.spec_type_tag(),
    {
        let mut guard = self.acquire_state();
        let result = guard.commit_ok(data);
        guard.release();
        result
    }

    /// Commits the single failing transition: if the container is still
    /// pending it becomes failed with `error` and the waiters to wake, each
    /// exactly once, are handed back; if it is already terminal the commit
    /// is rejected and nothing changes.
    pub fn commit_error(&self, error: LoadError) -> (result: Result<Vec<u64>, CommitError>) {
        let mut guard = self.acquire_state();
        let result = guard.commit_error(error);
        guard.release();
        result
    }

    /// What an awaiter calls when it starts waiting: on a pending container
    /// the waiter is recorded, to be woken by the single commit, and
    /// `Suspended` is returned; on a terminal container nothing is recorded
    /// and the load's outcome is returned immediately.
    pub fn poll_waiter(&self, waiter: u64) -> (outcome: PollOutcome) {
        let mut guard = self.acquire_state();
        let outcome = guard.poll_waiter(waiter);
        guard.release();
        outcome
    }

    /// Abandons one waiter's interest: its registration, if any, is removed
    /// and the load itself is unaffected.
    pub fn cancel_waiter(&self, waiter: u64) {
        let mut guard = self.acquire_state();
        guard.cancel_waiter(waiter);
        guard.release();
    }
}

impl<E: ResourceData> Clone for UntypedResource<E> {
    /// The clone is a second handle to the same container: same key, same
    /// lock, equal to the original.
    fn clone(&self) -> (result: Self)
        ensures
            result == *self,
    {
        UntypedResource { key: self.key, lock: clone_arc(&self.lock) }
    }
}

impl<E: ResourceData> PartialEq for UntypedResource<E> {
    /// Handles are equal exactly when they share one container, identified
    /// by the key; the content of the container plays no part.
    fn eq(&self, other: &Self) -> (equal: bool) {
        self.key == other.key
    }
}

impl<E: ResourceData> vstd::std_specs::cmp::PartialEqSpecImpl for UntypedResource<E> {
    open spec fn obeys_eq_spec() -> bool {
        true
    }

    open spec fn eq_spec(&self, other: &Self) -> bool {
        self.spec_key() == other.spec_key()
    }
}

impl<'a, E: ResourceData> StateGuard<'a, E> {
    /// The state held by the guard.
    pub closed spec fn view(self) -> ResourceState<E> {
        self.state
    }

    /// The fixed tag of the guarded container.
    pub closed spec fn spec_type_tag(self) -> u64 {
        self.handle.rwlock().pred().tag
    }

    /// The guard can be released: the state it holds carries the
    /// container's fixed tag. Every operation on the guard preserves this.
    pub closed spec fn wf(self) -> bool {
        self.handle.rwlock().inv(self.state)
    }

    /// While the guard can be released, the state it holds carries the
    /// container's fixed tag.
    pub proof fn lemma_wf_tag(&self)
        requires
            self.wf(),
        ensures
            self@.spec_type_tag() == self.spec_type_tag(),
    {
    }

    /// Borrows the guarded state.
    pub fn state_ref(&self) -> (state: &ResourceState<E>)
        ensures
            *state == self@,
    {
        &self.state
    }

    /// Replaces the path of the guarded state; everything else about it is
    /// untouched.
    pub fn set_path(&mut self, new_path: String)
        requires
            old(self).wf(),
        ensures
            final(self).wf(),
            final(self).spec_type_tag() == old(self).spec_type_tag(),
            final(self)@.spec_path() == new_path@,
            final(self)@.spec_type_tag() == old(self)@.spec_type_tag(),
            final(self)@.spec_wakers() == old(self)@.spec_wakers(),
            final(self)@.spec_error() == old(self)@.spec_error(),
            final(self)@ is Pending == old(self)@ is Pending,
            final(self)@ is Loaded == old(self)@ is Loaded,
    {
        self.state.set_path(new_path);
    }

    /// Commits the single successful transition on the guarded state; see
    /// [`ResourceState::commit_ok`].
    pub fn commit_ok(&mut self, data: E) -> (result: Result<Vec<u64>, CommitError>)
        requires
            old(self).wf(),
            data.spec_type_tag() == old(self).spec_type_tag(),
        ensures
            final(self).wf(),
            final(self).spec_type_tag() == old(self).spec_type_tag(),
            old(self)@ is Pending ==> {
                &&& final(self)@ == (ResourceState::Loaded { data })
                &&& result matches Ok(woken) && woken@ == old(self)@.spec_wakers()
            },
            old(self)@.is_terminal() ==> final(self)@ == old(self)@ && result matches Err(_),
    {
        self.state.commit_ok(data)
    }

    /// Commits the single failing transition on the guarded state; see
    /// [`ResourceState::commit_error`].
    pub fn commit_error(&mut self, error: LoadError) -> (result: Result<Vec<u64>, CommitError>)
        requires
            old(self).wf(),
        ensures
            final(self).wf(),
            final(self).spec_type_tag() == old(self).spec_type_tag(),
            old(self)@ is Pending ==> {
                &&& final(self)@ is LoadError
                &&& final(self)@.spec_path() == old(self)@.spec_path()
                &&& final(self)@.spec_type_tag() == old(self)@.spec_type_tag()
                &&& final(self)@.spec_error() == Some(error@)
                &&& result matches Ok(woken) && woken@ == old(self)@.spec_wakers()
            },
            old(self)@.is_terminal() ==> final(self)@ == old(self)@ && result matches Err(_),
    {
        self.state.commit_error(error)
    }

    /// Records a waiter on the guarded pending state.
    pub fn register_waiter(&mut self, waiter: u64)
        requires
            old(self).wf(),
            old(self)@ is Pending,
        ensures
            final(self).wf(),
            final(self).spec_type_tag() == old(self).spec_type_tag(),
            final(self)@ is Pending,
            final(self)@.spec_wakers() == old(self)@.spec_wakers().push(waiter),
            final(self)@.spec_path() == old(self)@.spec_path(),
            final(self)@.spec_type_tag() == old(self)@.spec_type_tag(),
    {
        self.state.register_waiter(waiter);
    }

    /// Polls for completion on the guarded state; see
    /// [`ResourceState::poll_waiter`].
    pub fn poll_waiter(&mut self, waiter: u64) -> (outcome: PollOutcome)
        requires
            old(self).wf(),
        ensures
            final(self).wf(),
            final(self).spec_type_tag() == old(self).spec_type_tag(),
            old(self)@ is Pending ==> {
                &&& final(self)@ is Pending
                &&& final(self)@.spec_wakers() == old(self)@.spec_wakers().push(waiter)
                &&& final(self)@.spec_path() == old(self)@.spec_path()
                &&& final(self)@.spec_type_tag() == old(self)@.spec_type_tag()
                &&& outcome is Suspended
            },
            old(self)@ is Loaded ==> final(self)@ == old(self)@ && outcome is Resolved,
            old(self)@ is LoadError ==> {
                &&& final(self)@ == old(self)@
                &&& outcome matches PollOutcome::Failed(error) && Some(error@) == old(
                    self,
                )@.spec_error()
            },
    {
        self.state.poll_waiter(waiter)
    }

    /// Removes one registration of `waiter`, if any, from the guarded
    /// state; see [`ResourceState::cancel_waiter`].
    pub fn cancel_waiter(&mut self, waiter: u64)
        requires
            old(self).wf(),
        ensures
            final(self).wf(),
            final(self).spec_type_tag() == old(self).spec_type_tag(),
            old(self)@.is_terminal() ==> final(self)@ == old(self)@,
            old(self)@ is Pending ==> final(self)@ is Pending && final(self)@.spec_path() == old(
                self,
            )@.spec_path() && final(self)@.spec_type_tag() == old(self)@.spec_type_tag(),
    {
        self.state.cancel_waiter(waiter);
    }

    /// Borrows the guarded state mutably. The guard can be released again
    /// once the state left behind carries the container's fixed tag, which
    /// every operation of [`ResourceState`] preserves.
    pub fn state_mut(&mut self) -> (state: &mut ResourceState<E>)
        ensures
            *state == old(self)@,
            final(self)@ == *final(state),
            final(self).spec_type_tag() == old(self).spec_type_tag(),
            final(self).wf() == ((*final(state)).spec_type_tag() == old(self).spec_type_tag()),
    {
        &mut self.state
    }

    /// Exchanges the guarded state for `state`, handing the previous one
    /// back. The replacement must carry the container's fixed tag.
    pub fn swap_state(&mut self, state: ResourceState<E>) -> (previous: ResourceState<E>)
        requires
            old(self).wf(),
            state.spec_type_tag() == old(self).spec_type_tag(),
        ensures
            final(self).wf(),
            final(self).spec_type_tag() == old(self).spec_type_tag(),
            final(self)@ == state,
            previous == old(self)@,
    {
        let mut incoming = state;
        core::mem::swap(&mut incoming, &mut self.state);
        incoming
    }

    /// Releases the lock, making the guarded state visible to every other
    /// handle of the same container.
    pub fn release(self)
        requires
            self.wf(),
    {
        let StateGuard { state, handle } = self;
        handle.release_write(state);
    }
}

/// Every clone of a handle shares its container: however often a handle is
/// cloned, and in whatever order the clones are taken, all of them carry one
/// identity key and one type tag, and any two of them compare equal.
pub proof fn lemma_clones_share_identity<E: ResourceData>(
    origin: UntypedResource<E>,
    clones: Seq<UntypedResource<E>>,
)
    requires
        forall|i: int| 0 <= i < clones.len() ==> clones[i] == origin,
    ensures
        forall|i: int, j: int|
            0 <= i < clones.len() && 0 <= j < clones.len() ==> clones[i].spec_key()
                == clones[j].spec_key(),
        forall|i: int| 0 <= i < clones.len() ==> clones[i].spec_key() == origin.spec_key(),
        forall|i: int| 0 <= i < clones.len() ==> clones[i].spec_type_tag()
            == origin.spec_type_tag(),
{
}

} // verus!
