use vstd::prelude::*;
use crate::blob::BlobReader;
use crate::error::{contains, failure_text, message_of, opt_view, ErrorView, StorageError};
use crate::sync::{MutationObserver, ObserverView, SyncedWorkspace};

verus! {

/// The address at which the durable store for `path` is opened, or created if
/// absent, for reading and writing.
pub open spec fn store_address_of(path: Seq<char>) -> Seq<char> {
    "sqlite:"@ + path + "?mode=rwc"@
}

/// The state of a storage handle: the store it holds, if it opened, and the
/// last error recorded.
pub struct StorageView<S> {
    pub store: Option<S>,
    pub error: Option<Seq<char>>,
}

/// A storage handle as construction leaves it, from the outcome of opening
/// the store: the store, or the reason it did not open.
pub open spec fn handle_of<S>(opened: Result<S, Seq<char>>) -> StorageView<S> {
    match opened {
        Ok(s) => StorageView { store: Some(s), error: None },
        Err(e) => StorageView { store: None, error: Some(e) },
    }
}

pub open spec fn opened_view<S>(opened: Result<S, String>) -> Result<S, Seq<char>> {
    match opened {
        Ok(s) => Ok(s),
        Err(e) => Err(e@),
    }
}

/// What the sync-protocol client returned: the synced document's id, or the
/// cause of its failure.
pub open spec fn established_view<D>(established: Result<(D, String), String>) -> Result<
    Seq<char>,
    Seq<char>,
> {
    match established {
        Ok((_, id)) => Ok(id@),
        Err(cause) => Err(cause@),
    }
}

/// What `sync` yields: an observer attached to the synced document, or why
/// there is none.
pub open spec fn sync_outcome<S>(h: StorageView<S>, established: Result<Seq<char>, Seq<char>>) -> Result<
    ObserverView,
    ErrorView,
> {
    match h.store {
        None => Err(ErrorView::NotConnected),
        Some(_) => match established {
            Ok(id) => Ok(ObserverView { workspace_id: id, attached: true }),
            Err(cause) => Err(ErrorView::SyncFailed { cause }),
        },
    }
}

/// What `connect` leaves: the handle, with a failure recorded as its error,
/// and the observer of the synced document, if there is one.
pub open spec fn connect_outcome<S>(
    h: StorageView<S>,
    established: Result<Seq<char>, Seq<char>>,
) -> (StorageView<S>, Option<ObserverView>) {
    match sync_outcome(h, established) {
        Ok(m) => (h, Some(m)),
        Err(e) => (StorageView { error: Some(failure_text(message_of(e))), ..h }, None),
    }
}

/// The store that a blob is read from, or why it cannot be.
pub open spec fn blob_source<S>(h: StorageView<S>) -> Result<S, ErrorView> {
    match h.store {
        Some(s) => Ok(s),
        None => Err(ErrorView::NotConnected),
    }
}

pub open spec fn synced_view<D>(r: Result<SyncedWorkspace<D>, StorageError>) -> Result<
    ObserverView,
    ErrorView,
> {
    match r {
        Ok(w) => Ok(w.observer@),
        Err(e) => Err(e@),
    }
}

/// The address of the durable store kept at `path`.
pub fn store_address(path: &str) -> (r: String)
    ensures
        r@ == store_address_of(path@),
{
    let mut a = String::from_str("sqlite:");
    a.append(path);
    a.append("?mode=rwc");
    a
}

/// A handle on a durable store, shared by the sessions derived from it. If
/// the store failed to open, the handle holds the reason and no store, and
/// every operation that needs the store fails.
#[derive(Clone)]
pub struct Storage<S> {
    storage: Option<S>,
    error: Option<String>,
}

impl<S> View for Storage<S> {
    type V = StorageView<S>;

    closed spec fn view(&self) -> StorageView<S> {
        StorageView { store: self.storage, error: opt_view(self.error) }
    }
}

impl<S> Storage<S> {
    /// The handle for the outcome of opening the store: exactly one of the
    /// store and an error is present.
    pub fn new(opened: Result<S, String>) -> (r: Storage<S>)
        ensures
            r@ == handle_of(opened_view(opened)),
            (r@.store is Some) != (r@.error is Some),
    {
        match opened {
            Ok(pool) => Storage { storage: Some(pool), error: None },
            Err(e) => Storage { storage: None, error: Some(e) },
        }
    }

    /// The last error recorded, if any.
    pub fn error(&self) -> (r: Option<String>)
        ensures
            opt_view(r) == self@.error,
    {
        match &self.error {
            Some(e) => Some(e.clone()),
            None => None,
        }
    }

    /// The store, if the handle holds one.
    pub fn store(&self) -> (r: Result<&S, StorageError>)
        ensures
            match r {
                Ok(s) => self@.store == Some(*s),
                Err(e) => self@.store is None && e@ == ErrorView::NotConnected,
            },
    {
        match &self.storage {
            Some(s) => Ok(s),
            None => Err(StorageError::NotConnected),
        }
    }

    /// Starts retrieving the blob `id` of `workspace_id`: the store to read
    /// it from, and a reader that has seen no chunk.
    pub fn get_blob(&self, workspace_id: Option<String>, id: String) -> (r: Result<
        (&S, BlobReader),
        StorageError,
    >)
        ensures
            match r {
                Ok((s, reader)) => blob_source(self@) == Ok::<S, ErrorView>(*s) && reader.wf()
                    && reader.workspace_id() == opt_view(workspace_id) && reader.id() == id@
                    && reader.seen().len() == 0,
                Err(e) => blob_source(self@) == Err::<S, ErrorView>(e@),
            },
    {
        match &self.storage {
            Some(s) => Ok((s, BlobReader::new(workspace_id, id))),
            None => Err(StorageError::NotConnected),
        }
    }

    /// Completes a sync session from what the sync-protocol client returned
    /// for this handle's store: the document with its id, or the cause of the
    /// failure. On success the document comes back with an observer attached
    /// under its id; a handle without a store never yields a workspace.
    pub fn sync<D>(&self, established: Result<(D, String), String>) -> (r: Result<
        SyncedWorkspace<D>,
        StorageError,
    >)
        ensures
            synced_view(r) == sync_outcome(self@, established_view(established)),
            r is Ok ==> r->Ok_0.doc == established->Ok_0.0,
    {
        match &self.storage {
            None => Err(StorageError::NotConnected),
            Some(_) => match established {
                Ok((doc, id)) => Ok(SyncedWorkspace { doc, observer: MutationObserver::attach(id) }),
                Err(cause) => Err(StorageError::SyncFailed { cause }),
            },
        }
    }

    /// As `sync`, but a failure yields no workspace and is recorded as the
    /// handle's error, in place of any earlier one, as a generic failure whose
    /// reason is the error's message.
    pub fn connect<D>(&mut self, established: Result<(D, String), String>) -> (r: Option<
        SyncedWorkspace<D>,
    >)
        ensures
            (final(self)@, match r {
                Some(w) => Some(w.observer@),
                None => None,
            }) == connect_outcome(old(self)@, established_view(established)),
            r is Some ==> r->Some_0.doc == established->Ok_0.0,
    {
        match self.sync(established) {
            Ok(workspace) => Some(workspace),
            Err(e) => {
                self.error = Some(e.failure_text());
                None
            },
        }
    }
}

/// Opening decides the handle for good: an opened store leaves no error, and
/// a store that failed to open leaves its error recorded while every blob
/// retrieval and every sync fails as not connected.
pub proof fn lemma_open_outcome_decides_handle<S>(
    opened: Result<S, Seq<char>>,
    established: Result<Seq<char>, Seq<char>>,
)
    ensures
        opened is Ok ==> handle_of(opened).error is None && handle_of(opened).store is Some,
        opened is Err ==> {
            &&& handle_of(opened).error == Some(opened->Err_0)
            &&& blob_source(handle_of(opened)) == Err::<S, ErrorView>(ErrorView::NotConnected)
            &&& sync_outcome(handle_of(opened), established) == Err::<ObserverView, ErrorView>(
                ErrorView::NotConnected,
            )
        },
{
}

/// Against a sync client that fails, `sync` reports the client's error as
/// its cause, and `connect` yields no workspace and records a non-empty error
/// that holds that cause.
pub proof fn lemma_failed_client_is_reported<S>(h: StorageView<S>, cause: Seq<char>)
    requires
        h.store is Some,
    ensures
        sync_outcome(h, Err(cause)) == Err::<ObserverView, ErrorView>(
            ErrorView::SyncFailed { cause },
        ),
        connect_outcome(h, Err(cause)).1 is None,
        connect_outcome(h, Err(cause)).0.error is Some,
        connect_outcome(h, Err(cause)).0.error->Some_0.len() > 0,
        contains(connect_outcome(h, Err(cause)).0.error->Some_0, cause),
{
    reveal_strlit("GenericFailure");
    reveal_strlit("GenericFailure, ");
    let text = connect_outcome(h, Err(cause)).0.error->Some_0;
    if cause.len() == 0 {
        let z: int = 0;
        assert(text.subrange(z, z + cause.len()) =~= cause);
    } else {
        let pre = "GenericFailure, "@;
        let i = pre.len() as int;
        assert(text == pre + cause);
        assert(text.subrange(i, i + cause.len()) =~= cause);
    }
}

} // verus!
