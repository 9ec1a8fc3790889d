//! The lifecycle state of one resource, and its one-way transitions.
//!
//! A container starts `Pending` and moves exactly once to a terminal state,
//! `Loaded` or `LoadError`. The pending state records the waiters to notify on
//! that single transition; committing hands the whole waiter list back so
//! that every registered waiter is woken exactly once.

use vstd::prelude::*;

use crate::data::LoadError;
use crate::data::ResourceData;

verus! {

/// Rejection of a commit requested on an already-terminal container.
#[derive(Clone, Copy, PartialEq, Eq, Structural, Debug)]
pub struct CommitError;

/// What a waiter observes when it asks a container for completion.
pub enum PollOutcome {
    /// The container is still pending; the waiter was recorded and will be
    /// woken by the single commit.
    Suspended,
    /// The container is loaded; the waiter resolves immediately.
    Resolved,
    /// The container failed to load; the waiter resolves immediately with
    /// its own copy of the error.
    Failed(LoadError),
}

/// The lifecycle state of one resource.
pub enum ResourceState<E> {
    /// Load in flight or queued. `wakers` holds the waiters to notify when
    /// the load completes.
    Pending { path: String, type_tag: u64, wakers: Vec<u64> },
    /// Terminal failure: the load at `path` failed with `error`.
    LoadError { path: String, type_tag: u64, error: LoadError },
    /// Terminal success: the loaded data.
    Loaded { data: E },
}

impl<E: ResourceData> ResourceState<E> {
    /// The tag of the concrete data type this container holds or will hold.
    pub open spec fn spec_type_tag(self) -> u64 {
        match self {
            ResourceState::Pending { type_tag, .. } => type_tag,
            ResourceState::LoadError { type_tag, .. } => type_tag,
            ResourceState::Loaded { data } => data.spec_type_tag(),
        }
    }

    /// The path of the resource; for loaded data it is the data's own path.
    pub open spec fn spec_path(self) -> Seq<char> {
        match self {
            ResourceState::Pending { path, .. } => path@,
            ResourceState::LoadError { path, .. } => path@,
            ResourceState::Loaded { data } => data.spec_path(),
        }
    }

    /// The waiters registered so far; empty once terminal.
    pub open spec fn spec_wakers(self) -> Seq<u64> {
        match self {
            ResourceState::Pending { wakers, .. } => wakers@,
            _ => Seq::<u64>::empty(),
        }
    }

    /// The message of the load error, if the container is failed.
    pub open spec fn spec_error(self) -> Option<Seq<char>> {
        match self {
            ResourceState::LoadError { error, .. } => Some(error@),
            _ => None,
        }
    }

    /// Terminal states never transition again.
    pub open spec fn is_terminal(self) -> bool {
        !(self is Pending)
    }

    /// A fresh container awaiting its load, with no waiters yet.
    pub fn new_pending(path: String, type_tag: u64) -> (state: Self)
        ensures
            state is Pending,
            state.spec_path() == path@,
            state.spec_type_tag() == type_tag,
            state.spec_wakers() == Seq::<u64>::empty(),
    {
        let wakers: Vec<u64> = Vec::new();
        let state = ResourceState::Pending { path, type_tag, wakers };
        proof {
            assert(state.spec_wakers() =~= Seq::<u64>::empty());
        }
        state
    }

    /// A container that is already loaded.
    pub fn new_ok(data: E) -> (state: Self)
        ensures
            state == (ResourceState::Loaded { data }),
    {
        ResourceState::Loaded { data }
    }

    /// A container whose load already failed.
    pub fn new_load_error(path: String, error: LoadError, type_tag: u64) -> (state: Self)
        ensures
            state == (ResourceState::<E>::LoadError { path, type_tag, error }),
    {
        ResourceState::LoadError { path, type_tag, error }
    }

    /// Returns the tag of the concrete data type this container is for.
    pub fn type_tag(&self) -> (tag: u64)
        ensures
            tag == self.spec_type_tag(),
    {
        match self {
            ResourceState::Pending { type_tag, .. } => *type_tag,
            ResourceState::LoadError { type_tag, .. } => *type_tag,
            ResourceState::Loaded { data } => data.type_tag(),
        }
    }

    /// Returns the path of the resource.
    pub fn path(&self) -> (path: &String)
        ensures
            path@ == self.spec_path(),
    {
        match self {
            ResourceState::Pending { path, .. } => path,
            ResourceState::LoadError { path, .. } => path,
            ResourceState::Loaded { data } => data.path(),
        }
    }

    /// Replaces the path, readable and writable in every state; everything
    /// else about the container is untouched.
    pub fn set_path(&mut self, new_path: String)
        ensures
            final(self).spec_path() == new_path@,
            final(self).spec_type_tag() == old(self).spec_type_tag(),
            final(self).spec_wakers() == old(self).spec_wakers(),
            final(self).spec_error() == old(self).spec_error(),
            *final(self) is Pending == *old(self) is Pending,
            *final(self) is Loaded == *old(self) is Loaded,
    {
        match self {
            ResourceState::Pending { path, .. } => {
                *path = new_path;
            },
            ResourceState::LoadError { path, .. } => {
                *path = new_path;
            },
            ResourceState::Loaded { data } => {
                data.set_path(new_path);
            },
        }
    }

    /// The single successful transition: a pending container becomes `Loaded`
    /// and hands back every registered waiter, each exactly once, to be
    /// woken. A commit on an already-terminal container is rejected and
    /// changes nothing, so a second commit can never overwrite the first.
    pub fn commit_ok(&mut self, data: E) -> (result: Result<Vec<u64>, CommitError>)
        ensures
            *old(self) is Pending ==> {
                &&& *final(self) == (ResourceState::Loaded { data })
                &&& result matches Ok(woken) && woken@ == old(self).spec_wakers()
            },
            old(self).is_terminal() ==> *final(self) == *old(self) && result matches Err(_),
    {
        if let ResourceState::Pending { wakers, .. } = self {
            let mut woken: Vec<u64> = Vec::new();
            core::mem::swap(&mut woken, wakers);
            *self = ResourceState::Loaded { data };
            Ok(woken)
        } else {
            Err(CommitError)
        }
    }

    /// The single failing transition: a pending container becomes
    /// `LoadError`, keeping its path and tag, and hands back every
    /// registered waiter, each exactly once. A commit on an
    /// already-terminal container is rejected and changes nothing.
    pub fn commit_error(&mut self, error: LoadError) -> (result: Result<Vec<u64>, CommitError>)
        ensures
            *old(self) is Pending ==> {
                &&& *final(self) is LoadError
                &&& final(self).spec_path() == old(self).spec_path()
                &&& final(self).spec_type_tag() == old(self).spec_type_tag()
                &&& final(self).spec_error() == Some(error@)
                &&& result matches Ok(woken) && woken@ == old(self).spec_wakers()
            },
            old(self).is_terminal() ==> *final(self) == *old(self) && result matches Err(_),
    {
        if let ResourceState::Pending { path, type_tag, wakers } = self {
            let mut woken: Vec<u64> = Vec::new();
            core::mem::swap(&mut woken, wakers);
            let mut taken_path = String::new();
            core::mem::swap(&mut taken_path, path);
            let tag = *type_tag;
            *self = ResourceState::LoadError { path: taken_path, type_tag: tag, error };
            Ok(woken)
        } else {
            Err(CommitError)
        }
    }

    /// Records a waiter on a pending container; it will be woken by the
    /// single commit.
    pub fn register_waiter(&mut self, waiter: u64)
        requires
            *old(self) is Pending,
        ensures
            *final(self) is Pending,
            final(self).spec_wakers() == old(self).spec_wakers().push(waiter),
            final(self).spec_path() == old(self).spec_path(),
            final(self).spec_type_tag() == old(self).spec_type_tag(),
    {
        match self {
            ResourceState::Pending { wakers, .. } => {
                wakers.push(waiter);
            },
            _ => {
                proof {
                    assert(false);
                }
            },
        }
    }

    /// What an awaiter does when it starts: on a pending container it is
    /// recorded and suspends; on a terminal container it resolves
    /// immediately, registering nothing, with the outcome of the load.
    pub fn poll_waiter(&mut self, waiter: u64) -> (outcome: PollOutcome)
        ensures
            *old(self) is Pending ==> {
                &&& *final(self) is Pending
                &&& final(self).spec_wakers() == old(self).spec_wakers().push(waiter)
                &&& final(self).spec_path() == old(self).spec_path()
                &&& final(self).spec_type_tag() == old(self).spec_type_tag()
                &&& outcome is Suspended
            },
            *old(self) is Loaded ==> *final(self) == *old(self) && outcome is Resolved,
            *old(self) is LoadError ==> {
                &&& *final(self) == *old(self)
                &&& outcome matches PollOutcome::Failed(error) && Some(error@) == old(
                    self,
                ).spec_error()
            },
    {
        match self {
            ResourceState::Pending { wakers, .. } => {
                wakers.push(waiter);
                PollOutcome::Suspended
            },
            ResourceState::Loaded { .. } => PollOutcome::Resolved,
            ResourceState::LoadError { error, .. } => PollOutcome::Failed(error.clone()),
        }
    }

    /// Abandoning an in-flight await: removes one registration of `waiter`,
    /// if any, and nothing else; the load itself is unaffected.
    pub fn cancel_waiter(&mut self, waiter: u64)
        ensures
            old(self).is_terminal() ==> *final(self) == *old(self),
            *old(self) is Pending ==> {
                &&& *final(self) is Pending
                &&& final(self).spec_path() == old(self).spec_path()
                &&& final(self).spec_type_tag() == old(self).spec_type_tag()
                &&& if old(self).spec_wakers().contains(waiter) {
                    exists|i: int|
                        0 <= i < old(self).spec_wakers().len() && old(self).spec_wakers()[i]
                            == waiter && final(self).spec_wakers() == old(
                            self,
                        ).spec_wakers().remove(i)
                } else {
                    *final(self) == *old(self)
                }
            },
    {
        match self {
            ResourceState::Pending { wakers, .. } => {
                if let Some(index) = first_index_of(wakers, waiter) {
                    wakers.remove(index);
                }
            },
            _ => {},
        }
    }
}

/// The position of the first occurrence of `waiter`, if it occurs at all.
fn first_index_of(wakers: &Vec<u64>, waiter: u64) -> (position: Option<usize>)
    ensures
        match position {
            Some(index) => index < wakers@.len() && wakers@[index as int] == waiter,
            None => !wakers@.contains(waiter),
        },
{
    let mut index: usize = 0;
    while index < wakers.len()
        invariant
            index <= wakers@.len(),
            forall|j: int| 0 <= j < index ==> wakers@[j] != waiter,
        decreases wakers@.len() - index,
    {
        if wakers[index] == waiter {
            return Some(index);
        }
        index += 1;
    }
    None
}

/// One commit wakes each waiter of a single registration wave exactly once:
/// the notification list a commit hands back is exactly the registered list,
/// so when the registered waiters are distinct, every one of them appears in
/// it exactly once and nobody else appears at all.
pub proof fn lemma_single_wave_wakes_each_once(registered: Seq<u64>, woken: Seq<u64>)
    requires
        registered.no_duplicates(),
        woken == Seq::<u64>::empty() + registered,
    ensures
        woken.no_duplicates(),
        forall|waiter: u64| woken.contains(waiter) <==> registered.contains(waiter),
        forall|i: int| 0 <= i < registered.len() ==> woken.contains(registered[i]),
{
    assert(woken =~= registered);
}

} // verus!
