//! The statically typed view over an untyped handle.
//!
//! A typed handle pairs an untyped handle with a compile-time data type `T`
//! and is only ever constructed for containers whose fixed tag is the tag of
//! `T`; with that established once, every typed access to loaded data is
//! known to downcast successfully.

use vstd::prelude::*;
use vstd::pervasive::unreached;

use crate::data::LoadError;
use crate::data::ResourceData;
use crate::data::TypedResourceData;
use crate::state::CommitError;
use crate::state::PollOutcome;
use crate::state::ResourceState;
use crate::untyped::StateGuard;
use crate::untyped::UntypedResource;

verus! {

/// A resource handle of a particular data type `T`: a typed wrapper around
/// an [`UntypedResource`] whose container is known to carry `T`'s tag.
///
/// The default handle is a fresh container already loaded with `T`'s
/// default value, useful as a zero-configuration placeholder that triggers
/// no load.
pub struct Resource<T: TypedResourceData> {
    untyped: UntypedResource<T::Erased>,
}

/// Exclusive, typed access to the state of one container, held until
/// [`ResourceStateGuard::release`].
pub struct ResourceStateGuard<'a, T: TypedResourceData> {
    inner: StateGuard<'a, T::Erased>,
}

/// A read of the current state through a typed handle: the pending or
/// failed bookkeeping, or the loaded data at its concrete type.
pub enum ResourceStateRef<'a, T: TypedResourceData> {
    /// Resource is loading or queued to load from `path`.
    Pending {
        /// The path the resource will be loaded from.
        path: &'a String,
        /// The container's fixed type tag.
        type_tag: u64,
    },
    /// The load at `path` failed.
    LoadError {
        /// The path at which the load failed.
        path: &'a String,
        /// Why the load failed.
        error: &'a LoadError,
        /// The container's fixed type tag.
        type_tag: u64,
    },
    /// The loaded data, at its concrete type.
    Loaded(&'a T),
}

/// Exclusive access to the loaded data behind a typed handle, held until
/// [`ResourceDataRef::release`]. Reading the data is a caller contract:
/// it is only permitted once the state is known to be loaded.
pub struct ResourceDataRef<'a, T: TypedResourceData> {
    guard: ResourceStateGuard<'a, T>,
}

impl<T: TypedResourceData> Resource<T> {
    /// Every typed handle refers to a container whose fixed tag is `T`'s.
    #[verifier::type_invariant]
    pub closed spec fn wf(self) -> bool {
        self.untyped.spec_type_tag() == T::spec_type_tag_of()
    }

    /// The identity key of the container this handle refers to.
    pub closed spec fn spec_key(self) -> usize {
        self.untyped.spec_key()
    }

    /// A fresh resource in pending state, to be loaded from `path`.
    pub fn new_pending(path: String) -> (resource: Self)
        ensures
            resource.wf(),
    {
        let tag = T::type_tag_of();
        Resource { untyped: UntypedResource::new_pending(path, tag) }
    }

    /// A fresh resource that is already loaded with `data`.
    pub fn new_ok(data: T) -> (resource: Self)
        ensures
            resource.wf(),
    {
        proof {
            data.lemma_erase_roundtrip();
        }
        let erased = data.erase();
        Resource { untyped: UntypedResource::new_ok(erased) }
    }

    /// A fresh resource whose load already failed with `error`.
    pub fn new_load_error(path: String, error: LoadError) -> (resource: Self)
        ensures
            resource.wf(),
    {
        let tag = T::type_tag_of();
        Resource { untyped: UntypedResource::new_load_error(path, error, tag) }
    }

    /// Unwraps the typed view, handing back the underlying untyped handle
    /// to the same container.
    pub fn into_untyped(self) -> (untyped: UntypedResource<T::Erased>)
        ensures
            untyped.spec_type_tag() == T::spec_type_tag_of(),
            untyped.spec_key() == self.spec_key(),
    {
        proof {
            use_type_invariant(&self);
        }
        let Resource { untyped } = self;
        untyped
    }

    /// Wraps an untyped handle whose container is known to carry `T`'s tag.
    /// Constructing a typed view with a mismatched tag is a programming
    /// error, which this signature rules out; use
    /// [`Resource::try_from_untyped`] when the tag must be checked at run
    /// time.
    pub fn from_untyped(untyped: UntypedResource<T::Erased>) -> (resource: Self)
        requires
            untyped.spec_type_tag() == T::spec_type_tag_of(),
        ensures
            resource.wf(),
            resource.spec_key() == untyped.spec_key(),
    {
        Resource { untyped }
    }

    /// Wraps an untyped handle after checking that its container carries
    /// `T`'s tag; a handle with any other tag is handed back unchanged.
    pub fn try_from_untyped(untyped: UntypedResource<T::Erased>) -> (result: Result<
        Self,
        UntypedResource<T::Erased>,
    >)
        ensures
            match result {
                Ok(resource) => {
                    &&& untyped.spec_type_tag() == T::spec_type_tag_of()
                    &&& resource.wf()
                    &&& resource.spec_key() == untyped.spec_key()
                },
                Err(unchanged) => {
                    &&& unchanged == untyped
                    &&& untyped.spec_type_tag() != T::spec_type_tag_of()
                },
            },
    {
        let tag = untyped.type_tag();
        if tag == T::type_tag_of() {
            Ok(Resource { untyped })
        } else {
            Err(untyped)
        }
    }

    /// Acquires exclusive, typed access to the container's state, waiting
    /// until no other holder has it.
    pub fn state(&self) -> (guard: ResourceStateGuard<'_, T>)
        ensures
            guard.wf(),
    {
        proof {
            use_type_invariant(self);
        }
        ResourceStateGuard { inner: self.untyped.acquire_state() }
    }

    /// Acquires the state guard for callers prepared to go without one.
    /// The verified lock used here has no contention probe, so acquisition
    /// waits instead of failing and a guard is always produced.
    pub fn try_acquire_state(&self) -> (guard: Option<ResourceStateGuard<'_, T>>)
        ensures
            guard matches Some(g) && g.wf(),
    {
        Some(self.state())
    }

    /// Exclusive access to the loaded data. Reading through the result is
    /// only permitted once the state is known to be loaded: check
    /// [`ResourceDataRef::is_ok`], or poll for completion first.
    pub fn data_ref(&self) -> (data: ResourceDataRef<'_, T>)
        ensures
            data.wf(),
    {
        ResourceDataRef { guard: self.state() }
    }

    /// True if a snapshot of the state taken now is still pending.
    pub fn is_loading(&self) -> bool {
        self.untyped.is_loading()
    }

    /// True if a snapshot of the state taken now is loaded and ready. A
    /// terminal state never changes, so a true answer stays true.
    pub fn is_ok(&self) -> bool {
        self.untyped.is_ok()
    }

    /// True if a snapshot of the state taken now is a failed load. A
    /// terminal state never changes, so a true answer stays true.
    pub fn is_failed_to_load(&self) -> bool {
        self.untyped.is_failed_to_load()
    }

    /// The number of live handles currently sharing the container.
    pub fn use_count(&self) -> (count: usize)
        ensures
            count >= 1,
    {
        self.untyped.use_count()
    }

    /// The identity key shared by every handle to this container.
    pub fn key(&self) -> (key: usize)
        ensures
            key == self.spec_key(),
    {
        self.untyped.key()
    }

    /// A copy of the resource's current path.
    pub fn path(&self) -> String {
        self.untyped.path()
    }

    /// Replaces the resource's path; in the loaded state the contained
    /// data's own path is updated.
    pub fn set_path(&mut self, new_path: String) {
        self.untyped.set_path(new_path);
    }

    /// Commits the single successful transition with typed data; the
    /// waiters to wake, each exactly once, are handed back. A commit on an
    /// already-terminal container is rejected and changes nothing.
    pub fn commit_ok(&self, data: T) -> (result: Result<Vec<u64>, CommitError>) {
        proof {
            use_type_invariant(self);
            data.lemma_erase_roundtrip();
        }
        let erased = data.erase();
        self.untyped.commit_ok(erased)
    }

    /// Commits the single failing transition; the waiters to wake, each
    /// exactly once, are handed back. A commit on an already-terminal
    /// container is rejected and changes nothing.
    pub fn commit_error(&self, error: LoadError) -> (result: Result<Vec<u64>, CommitError>) {
        self.untyped.commit_error(error)
    }

    /// What an awaiter calls when it starts waiting: on a pending container
    /// the waiter is recorded, to be woken by the single commit; on a
    /// terminal container nothing is recorded and the outcome is returned
    /// immediately.
    pub fn poll_waiter(&self, waiter: u64) -> (outcome: PollOutcome) {
        self.untyped.poll_waiter(waiter)
    }

    /// Abandons one waiter's interest; the load itself is unaffected.
    pub fn cancel_waiter(&self, waiter: u64) {
        self.untyped.cancel_waiter(waiter);
    }
}

impl<T: TypedResourceData> Clone for Resource<T> {
    /// The clone is a second typed handle to the same container.
    fn clone(&self) -> (result: Self)
        ensures
            result == *self,
    {
        proof {
            use_type_invariant(self);
        }
        Resource { untyped: self.untyped.clone() }
    }
}

impl<T: TypedResourceData> PartialEq for Resource<T> {
    /// Typed handles are equal exactly when they share one container; the
    /// data type and the container content play no part.
    fn eq(&self, other: &Self) -> (equal: bool) {
        self.untyped == other.untyped
    }
}

impl<T: TypedResourceData> vstd::std_specs::cmp::PartialEqSpecImpl for Resource<T> {
    open spec fn obeys_eq_spec() -> bool {
        true
    }

    open spec fn eq_spec(&self, other: &Self) -> bool {
        self.spec_key() == other.spec_key()
    }
}

impl<T: TypedResourceData> Default for Resource<T> {
    /// The default handle wraps a fresh container already loaded with the
    /// type's default value; no load is triggered.
    fn default() -> (result: Self)
        ensures
            result.wf(),
    {
        Resource::new_ok(T::default_data())
    }
}

impl<'a, T: TypedResourceData> ResourceStateGuard<'a, T> {
    /// The state held by the guard.
    pub closed spec fn view(self) -> ResourceState<T::Erased> {
        self.inner@
    }

    /// The guarded state carries `T`'s tag, now and after every operation
    /// on the guard.
    pub closed spec fn wf(self) -> bool {
        &&& self.inner.wf()
        &&& self.inner.spec_type_tag() == T::spec_type_tag_of()
    }

    /// While the guard can be released, the state it holds carries `T`'s
    /// tag; an edit through [`ResourceStateGuard::get_mut`] that keeps the
    /// tag therefore keeps the guard releasable.
    pub proof fn lemma_wf_tag(&self)
        requires
            self.wf(),
        ensures
            self@.spec_type_tag() == T::spec_type_tag_of(),
    {
        self.inner.lemma_wf_tag();
    }

    /// Fetches the actual state of the resource, with loaded data at its
    /// concrete type.
    pub fn get(&self) -> (state: ResourceStateRef<'_, T>)
        requires
            self.wf(),
        ensures
            match state {
                ResourceStateRef::Pending { path, type_tag } => self@ is Pending && path@ == self@.spec_path()
                    && type_tag == self@.spec_type_tag(),
                ResourceStateRef::LoadError { path, error, type_tag } => self@ is LoadError && path@
                    == self@.spec_path() && Some(error@) == self@.spec_error() && type_tag
                    == self@.spec_type_tag(),
                ResourceStateRef::Loaded(data) => {
                    &&& self@ matches ResourceState::Loaded { data: erased }
                    &&& T::spec_downcast(erased) == Some(*data)
                },
            },
    {
        proof {
            self.inner.lemma_wf_tag();
        }
        match self.inner.state_ref() {
            ResourceState::Pending { path, type_tag, .. } => ResourceStateRef::Pending {
                path,
                type_tag: *type_tag,
            },
            ResourceState::LoadError { path, type_tag, error } => ResourceStateRef::LoadError {
                path,
                error,
                type_tag: *type_tag,
            },
            ResourceState::Loaded { data } => {
                proof {
                    T::lemma_downcast_tag(*data);
                }
                match T::downcast_ref(data) {
                    Some(typed) => ResourceStateRef::Loaded(typed),
                    None => unreached(),
                }
            },
        }
    }

    /// Borrows the guarded state mutably, for edits the other guard
    /// operations do not cover. The guard can be released again once the
    /// state left behind carries `T`'s tag, which every operation of
    /// [`ResourceState`] preserves.
    pub fn get_mut(&mut self) -> (state: &mut ResourceState<T::Erased>)
        requires
            old(self).wf(),
        ensures
            *state == old(self)@,
            final(self)@ == *final(state),
            final(self).wf() == ((*final(state)).spec_type_tag() == T::spec_type_tag_of()),
    {
        self.inner.state_mut()
    }

    /// Replaces the path of the guarded state; everything else about it is
    /// untouched.
    pub fn set_path(&mut self, new_path: String)
        requires
            old(self).wf(),
        ensures
            final(self).wf(),
            final(self)@.spec_path() == new_path@,
            final(self)@.spec_type_tag() == old(self)@.spec_type_tag(),
            final(self)@.spec_wakers() == old(self)@.spec_wakers(),
            final(self)@.spec_error() == old(self)@.spec_error(),
            final(self)@ is Pending == old(self)@ is Pending,
            final(self)@ is Loaded == old(self)@ is Loaded,
    {
        self.inner.set_path(new_path);
    }

    /// Commits the single successful transition with typed data; see
    /// [`ResourceState::commit_ok`].
    pub fn commit_ok(&mut self, data: T) -> (result: Result<Vec<u64>, CommitError>)
        requires
            old(self).wf(),
        ensures
            final(self).wf(),
            old(self)@ is Pending ==> {
                &&& final(self)@ == (ResourceState::Loaded { data: data.spec_erase() })
                &&& result matches Ok(woken) && woken@ == old(self)@.spec_wakers()
            },
            old(self)@.is_terminal() ==> final(self)@ == old(self)@ && result matches Err(_),
    {
        proof {
            data.lemma_erase_roundtrip();
        }
        let erased = data.erase();
        self.inner.commit_ok(erased)
    }

    /// Commits the single failing transition; see
    /// [`ResourceState::commit_error`].
    pub fn commit_error(&mut self, error: LoadError) -> (result: Result<Vec<u64>, CommitError>)
        requires
            old(self).wf(),
        ensures
            final(self).wf(),
            old(self)@ is Pending ==> {
                &&& final(self)@ is LoadError
                &&& final(self)@.spec_path() == old(self)@.spec_path()
                &&& final(self)@.spec_type_tag() == old(self)@.spec_type_tag()
                &&& final(self)@.spec_error() == Some(error@)
                &&& result matches Ok(woken) && woken@ == old(self)@.spec_wakers()
            },
            old(self)@.is_terminal() ==> final(self)@ == old(self)@ && result matches Err(_),
    {
        self.inner.commit_error(error)
    }

    /// Records a waiter on the guarded pending state.
    pub fn register_waiter(&mut self, waiter: u64)
        requires
            old(self).wf(),
            old(self)@ is Pending,
        ensures
            final(self).wf(),
            final(self)@ is Pending,
            final(self)@.spec_wakers() == old(self)@.spec_wakers().push(waiter),
            final(self)@.spec_path() == old(self)@.spec_path(),
            final(self)@.spec_type_tag() == old(self)@.spec_type_tag(),
    {
        self.inner.register_waiter(waiter);
    }

    /// Polls for completion on the guarded state; see
    /// [`ResourceState::poll_waiter`].
    pub fn poll_waiter(&mut self, waiter: u64) -> (outcome: PollOutcome)
        requires
            old(self).wf(),
        ensures
            final(self).wf(),
            old(self)@ is Pending ==> {
                &&& final(self)@ is Pending
                &&& final(self)@.spec_wakers() == old(self)@.spec_wakers().push(waiter)
                &&& final(self)@.spec_path() == old(self)@.spec_path()
                &&& final(self)@.spec_type_tag() == old(self)@.spec_type_tag()
                &&& outcome is Suspended
            },
            old(self)@ is Loaded ==> final(self)@ == old(self)@ && outcome is Resolved,
            old(self)@ is LoadError ==> {
                &&& final(self)@ == old(self)@
                &&& outcome matches PollOutcome::Failed(error) && Some(error@) == old(
                    self,
                )@.spec_error()
            },
    {
        self.inner.poll_waiter(waiter)
    }

    /// Removes one registration of `waiter`, if any; see
    /// [`ResourceState::cancel_waiter`].
    pub fn cancel_waiter(&mut self, waiter: u64)
        requires
            old(self).wf(),
        ensures
            final(self).wf(),
            old(self)@.is_terminal() ==> final(self)@ == old(self)@,
            old(self)@ is Pending ==> final(self)@ is Pending && final(self)@.spec_path() == old(
                self,
            )@.spec_path() && final(self)@.spec_type_tag() == old(self)@.spec_type_tag(),
    {
        self.inner.cancel_waiter(waiter);
    }

    /// Releases the lock, making the guarded state visible to every other
    /// handle of the same container.
    pub fn release(self)
        requires
            self.wf(),
    {
        self.inner.release()
    }
}

impl<'a, T: TypedResourceData> ResourceDataRef<'a, T> {
    /// The state held behind the access.
    pub closed spec fn view(self) -> ResourceState<T::Erased> {
        self.guard@
    }

    /// The guarded state carries `T`'s tag.
    pub closed spec fn wf(self) -> bool {
        self.guard.wf()
    }

    /// True if the state is loaded, so that [`ResourceDataRef::get`] and
    /// [`ResourceDataRef::replace`] are permitted.
    pub fn is_ok(&self) -> (loaded: bool)
        requires
            self.wf(),
        ensures
            loaded == self@ is Loaded,
    {
        match self.guard.inner.state_ref() {
            ResourceState::Loaded { .. } => true,
            _ => false,
        }
    }

    /// The loaded data. Calling this before the resource is loaded is a
    /// caller contract violation, which this signature rules out: check
    /// [`ResourceDataRef::is_ok`], or poll for completion first.
    pub fn get(&self) -> (data: &T)
        requires
            self.wf(),
            self@ is Loaded,
        ensures
            self@ matches ResourceState::Loaded { data: erased } && T::spec_downcast(erased)
                == Some(*data),
    {
        match self.guard.get() {
            ResourceStateRef::Loaded(data) => data,
            _ => unreached(),
        }
    }

    /// Exchanges the loaded data for `data`, handing the previous data
    /// back. Like [`ResourceDataRef::get`], permitted only on a loaded
    /// resource.
    pub fn replace(&mut self, data: T) -> (previous: T)
        requires
            old(self).wf(),
            old(self)@ is Loaded,
        ensures
            final(self).wf(),
            final(self)@ == (ResourceState::Loaded { data: data.spec_erase() }),
            old(self)@ matches ResourceState::Loaded { data: erased } && T::spec_downcast(erased)
                == Some(previous),
    {
        proof {
            data.lemma_erase_roundtrip();
            self.guard.inner.lemma_wf_tag();
        }
        let erased = data.erase();
        let previous_state = self.guard.inner.swap_state(ResourceState::new_ok(erased));
        match previous_state {
            ResourceState::Loaded { data: previous_erased } => {
                proof {
                    T::lemma_downcast_tag(previous_erased);
                }
                match T::downcast(previous_erased) {
                    Ok(previous) => previous,
                    Err(_) => unreached(),
                }
            },
            _ => unreached(),
        }
    }

    /// Replaces the path of the guarded state; everything else about it is
    /// untouched.
    pub fn set_path(&mut self, new_path: String)
        requires
            old(self).wf(),
        ensures
            final(self).wf(),
            final(self)@.spec_path() == new_path@,
            final(self)@.spec_type_tag() == old(self)@.spec_type_tag(),
            final(self)@ is Loaded == old(self)@ is Loaded,
    {
        self.guard.set_path(new_path);
    }

    /// Describes the state of the access: whether reading the data is
    /// permitted, and the path of the resource concerned.
    pub fn describe(&self) -> (message: String)
        requires
            self.wf(),
        ensures
            self@ is Pending ==> message@ == "resource is not loaded yet; path is "@
                + self@.spec_path(),
            self@ is LoadError ==> message@ == "resource failed to load; path is "@
                + self@.spec_path(),
            self@ is Loaded ==> message@ == "resource is loaded; path is "@ + self@.spec_path(),
    {
        let state = self.guard.inner.state_ref();
        let mut message = match state {
            ResourceState::Pending { .. } => String::from_str("resource is not loaded yet; path is "),
            ResourceState::LoadError { .. } => String::from_str("resource failed to load; path is "),
            ResourceState::Loaded { .. } => String::from_str("resource is loaded; path is "),
        };
        message.append(state.path().as_str());
        message
    }

    /// Releases the lock, making the state visible to every other handle of
    /// the same container.
    pub fn release(self)
        requires
            self.wf(),
    {
        self.guard.release()
    }
}

} // verus!
