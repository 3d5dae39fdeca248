//! The sessions one connection has open, by handle.

use crate::inc::{updated, IncSpawner, Inc, Message, Session, SessionError, SpawnError};
use std::collections::hash_map::Entry;
use std::collections::HashMap;
use vstd::prelude::*;

verus! {

broadcast use vstd::std_specs::hash::group_hash_axioms;

/// Where a handle stands in its life. A handle is issued once, open until it
/// is closed, and closed for good.
#[derive(Debug, Clone, Copy, PartialEq, Eq, Structural)]
pub enum HandleState {
    /// Not issued yet.
    Unopened,
    /// Issued, and its session is live.
    Open,
    /// Issued and closed since. It never opens again.
    Closed,
}

/// Why an operation on a handle failed.
#[derive(Debug, Clone, PartialEq, Eq)]
pub enum RegistryError {
    /// The handle was never issued on this connection, or is closed.
    HandleNotFound,
    /// The handle is open, and its session failed.
    Session(SessionError),
}

impl RegistryError {
    /// The text shown to the user for this failure.
    pub open spec fn spec_message(&self) -> Seq<char> {
        match self {
            RegistryError::HandleNotFound => "No such file"@,
            RegistryError::Session(e) => e.spec_message(),
        }
    }

    /// The text shown to the user for this failure.
    pub fn message(&self) -> (text: String)
        ensures
            text@ == self.spec_message(),
    {
        match self {
            RegistryError::HandleNotFound => "No such file".to_owned(),
            RegistryError::Session(e) => e.message(),
        }
    }
}

/// Why a file could not be opened.
#[derive(Debug, Clone, PartialEq, Eq)]
pub enum OpenError {
    /// No session could be started for the file.
    Spawn(SpawnError),
    /// Every handle there is has been issued on this connection. Handles are
    /// never issued twice, so the connection can open nothing more.
    NoHandleLeft,
}

impl OpenError {
    /// The text shown to the user for this failure.
    pub open spec fn spec_message(&self) -> Seq<char> {
        match self {
            OpenError::Spawn(e) => e.spec_message(),
            OpenError::NoHandleLeft => "No handle left"@,
        }
    }

    /// The text shown to the user for this failure.
    pub fn message(&self) -> (text: String)
        ensures
            text@ == self.spec_message(),
    {
        match self {
            OpenError::Spawn(e) => e.message(),
            OpenError::NoHandleLeft => "No handle left".to_owned(),
        }
    }
}

/// The sessions of one connection. It issues the handles, 1 first and each
/// one greater than the last, and never issues one twice.
pub struct SessionRegistry<S: Session> {
    handle_iter: u64,
    files: HashMap<u64, S>,
}

impl<S: Session> SessionRegistry<S> {
    /// The last handle issued; 0 before the first.
    pub closed spec fn issued(&self) -> u64 {
        self.handle_iter
    }

    /// The live sessions, by handle.
    pub closed spec fn sessions(&self) -> Map<u64, S> {
        self.files@
    }

    /// Every open handle is one that was issued.
    pub open spec fn wf(&self) -> bool {
        forall|h: u64| #[trigger] self.sessions().contains_key(h) ==> 1 <= h <= self.issued()
    }

    /// Whether `handle` was issued at some time, open or closed by now.
    pub open spec fn was_issued(&self, handle: u64) -> bool {
        1 <= handle <= self.issued()
    }

    /// Where `handle` stands in its life.
    pub open spec fn state_of(&self, handle: u64) -> HandleState {
        if self.sessions().contains_key(handle) {
            HandleState::Open
        } else if self.was_issued(handle) {
            HandleState::Closed
        } else {
            HandleState::Unopened
        }
    }

    /// Whether `later` may be this registry at a later time: no handle was
    /// taken back, and the handles open then were open before or are new.
    pub open spec fn precedes(&self, later: &Self) -> bool {
        &&& self.issued() <= later.issued()
        &&& forall|h: u64| #[trigger]
            later.sessions().contains_key(h) ==> self.sessions().contains_key(h) || h
                > self.issued()
    }

    /// What [`SessionRegistry::open`] returns and does: `r` is what came of
    /// opening `path` on this registry, which is `after` afterwards.
    pub open spec fn opened<B: Inc<Session = S>>(
        &self,
        spawner: &IncSpawner<B>,
        path: Seq<char>,
        after: &Self,
        r: Result<u64, OpenError>,
    ) -> bool {
        match r {
            Ok(handle) => {
                &&& self.issued() < u64::MAX
                &&& handle == self.issued() + 1
                &&& after.issued() == handle
                &&& forall|earlier: u64| self.was_issued(earlier) ==> earlier < handle
                &&& after.sessions().contains_key(handle)
                &&& after.sessions() == self.sessions().insert(handle, after.sessions()[handle])
                &&& spawner.spawned_for(path, Ok(after.sessions()[handle]))
            },
            Err(e) => {
                &&& after.issued() == self.issued()
                &&& after.sessions() == self.sessions()
                &&& match e {
                    OpenError::NoHandleLeft => self.issued() == u64::MAX,
                    OpenError::Spawn(e) => self.issued() < u64::MAX && spawner.spawned_for(
                        path,
                        Err(e),
                    ),
                }
            },
        }
    }

    /// A registry with no handle issued.
    pub fn new() -> (registry: Self)
        ensures
            registry.wf(),
            registry.issued() == 0,
            registry.sessions() == Map::<u64, S>::empty(),
    {
        SessionRegistry { handle_iter: 0, files: HashMap::new() }
    }

    /// The last handle issued; 0 before the first.
    pub fn last_handle(&self) -> (handle: u64)
        ensures
            handle == self.issued(),
    {
        self.handle_iter
    }

    /// How many sessions are live.
    pub fn len(&self) -> (n: usize)
        ensures
            n == self.sessions().len(),
    {
        self.files.len()
    }

    /// Where `handle` stands in its life.
    pub fn state(&self, handle: u64) -> (state: HandleState)
        ensures
            state == self.state_of(handle),
    {
        if self.files.contains_key(&handle) {
            HandleState::Open
        } else if 1 <= handle && handle <= self.handle_iter {
            HandleState::Closed
        } else {
            HandleState::Unopened
        }
    }

    /// Takes a started session in: issues the next handle and keeps the
    /// session under it.
    pub fn enroll(&mut self, session: S) -> (handle: u64)
        requires
            old(self).wf(),
            old(self).issued() < u64::MAX,
        ensures
            final(self).wf(),
            handle == old(self).issued() + 1,
            final(self).issued() == handle,
            final(self).sessions() == old(self).sessions().insert(handle, session),
            old(self).state_of(handle) == HandleState::Unopened,
            old(self).precedes(final(self)),
    {
        self.handle_iter = self.handle_iter + 1;
        self.files.insert(self.handle_iter, session);
        self.handle_iter
    }

    /// Opens the file at `path`: has `spawner` start a session for it and,
    /// where that succeeds, issues a handle for the session. The handle is
    /// greater than every handle issued before. Where no session starts, no
    /// handle is used up and nothing changes. Once the last handle there is
    /// has been issued, nothing can be opened and no backend is asked.
    pub fn open<B: Inc<Session = S>>(&mut self, spawner: &IncSpawner<B>, path: &str) -> (r: Result<
        u64,
        OpenError,
    >)
        requires
            old(self).wf(),
        ensures
            final(self).wf(),
            old(self).precedes(final(self)),
            old(self).opened(spawner, path@, final(self), r),
    {
        if self.handle_iter == u64::MAX {
            return Err(OpenError::NoHandleLeft);
        }
        match spawner.spawn(path) {
            Ok(session) => {
                let handle = self.enroll(session);
                Ok(handle)
            },
            Err(e) => Err(OpenError::Spawn(e)),
        }
    }

    /// Updates the session behind `handle` with `code` and hands back what it
    /// reports. A handle that is not open fails with
    /// [`RegistryError::HandleNotFound`] and no session is touched. No other
    /// session is touched in any case.
    pub fn dispatch_update(&mut self, handle: u64, code: Option<String>) -> (r: Result<
        Vec<Message>,
        RegistryError,
    >)
        requires
            old(self).wf(),
        ensures
            final(self).wf(),
            old(self).precedes(final(self)),
            final(self).issued() == old(self).issued(),
            final(self).sessions().dom() == old(self).sessions().dom(),
            forall|other: u64|
                other != handle && old(self).sessions().contains_key(other)
                    ==> #[trigger] final(self).sessions()[other] == old(self).sessions()[other],
            match old(self).state_of(handle) {
                HandleState::Open => match r {
                    Ok(messages) => updated(
                        old(self).sessions()[handle],
                        code,
                        final(self).sessions()[handle],
                        Ok(messages),
                    ),
                    Err(RegistryError::Session(e)) => updated(
                        old(self).sessions()[handle],
                        code,
                        final(self).sessions()[handle],
                        Err(e),
                    ),
                    Err(RegistryError::HandleNotFound) => false,
                },
                _ => r matches Err(RegistryError::HandleNotFound) && final(self).sessions() == old(
                    self,
                ).sessions(),
            },
    {
        match self.files.entry(handle) {
            Entry::Occupied(occupied) => {
                let session = occupied.into_mut();
                let r = session.update(code);
                assert(self.sessions().dom() =~= old(self).sessions().dom());
                match r {
                    Ok(messages) => Ok(messages),
                    Err(e) => Err(RegistryError::Session(e)),
                }
            },
            Entry::Vacant(_) => {
                assert(self.sessions() =~= old(self).sessions());
                Err(RegistryError::HandleNotFound)
            },
        }
    }

    /// Closes `handle`. The handle leaves the registry first; only then is
    /// its session let go, so nothing can reach a session that is being torn
    /// down. A handle that is not open fails with
    /// [`RegistryError::HandleNotFound`].
    pub fn close(&mut self, handle: u64) -> (r: Result<(), RegistryError>)
        requires
            old(self).wf(),
        ensures
            final(self).wf(),
            old(self).precedes(final(self)),
            final(self).issued() == old(self).issued(),
            final(self).sessions() == old(self).sessions().remove(handle),
            r is Ok <==> old(self).state_of(handle) == HandleState::Open,
            r is Err ==> r == Err::<(), RegistryError>(RegistryError::HandleNotFound),
            final(self).state_of(handle) != HandleState::Open,
    {
        let removed = self.files.remove(&handle);
        match removed {
            Some(session) => {
                let _ = session;
                Ok(())
            },
            None => Err(RegistryError::HandleNotFound),
        }
    }

    /// Closes every handle that is still open, as a connection does when it
    /// ends. The handles stay issued.
    pub fn close_all(&mut self)
        requires
            old(self).wf(),
        ensures
            final(self).wf(),
            old(self).precedes(final(self)),
            final(self).issued() == old(self).issued(),
            final(self).sessions() == Map::<u64, S>::empty(),
    {
        self.files.clear();
    }
}

/// A registry precedes itself, and what comes after a later registry comes
/// after the earlier one too: the order holds over any run of operations.
pub proof fn lemma_precedes_is_an_order<S: Session>(
    a: SessionRegistry<S>,
    b: SessionRegistry<S>,
    c: SessionRegistry<S>,
)
    requires
        a.precedes(&b),
        b.precedes(&c),
    ensures
        a.precedes(&a),
        a.precedes(&c),
{
    assert forall|h: u64| #[trigger] c.sessions().contains_key(h) implies a.sessions().contains_key(
        h,
    ) || h > a.issued() by {
        if b.sessions().contains_key(h) {
        }
    }
}

/// A closed handle stays closed: whatever is done to the registry afterwards,
/// the handle is not open again, so an update or a close that names it fails
/// with [`RegistryError::HandleNotFound`] and reaches no session.
pub proof fn lemma_closed_is_terminal<S: Session>(
    before: SessionRegistry<S>,
    later: SessionRegistry<S>,
    handle: u64,
)
    requires
        before.precedes(&later),
        before.state_of(handle) == HandleState::Closed,
    ensures
        later.state_of(handle) == HandleState::Closed,
{
}

/// Handles only move forward: one that is open was issued, and one that was
/// issued is not unopened later.
pub proof fn lemma_issued_stays_issued<S: Session>(
    before: SessionRegistry<S>,
    later: SessionRegistry<S>,
    handle: u64,
)
    requires
        before.wf(),
        before.precedes(&later),
        before.state_of(handle) != HandleState::Unopened,
    ensures
        later.state_of(handle) != HandleState::Unopened,
        before.was_issued(handle),
        later.was_issued(handle),
{
}

} // verus!
