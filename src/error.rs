use vstd::prelude::*;

verus! {

/// The failures that the coordinator reports to its caller.
#[derive(Debug)]
pub enum StorageError {
    /// The handle holds no store: it failed to open at construction.
    NotConnected,
    /// The sync-protocol client could not establish a session.
    SyncFailed { cause: String },
    /// A chunk of a blob's stream failed to read.
    BlobRead { workspace_id: Option<String>, id: String, cause: String },
}

/// What a [`StorageError`] says, as plain sequences.
pub enum ErrorView {
    NotConnected,
    SyncFailed { cause: Seq<char> },
    BlobRead { workspace_id: Option<Seq<char>>, id: Seq<char>, cause: Seq<char> },
}

pub open spec fn opt_view(s: Option<String>) -> Option<Seq<char>> {
    match s {
        Some(t) => Some(t@),
        None => None,
    }
}

impl View for StorageError {
    type V = ErrorView;

    open spec fn view(&self) -> ErrorView {
        match self {
            StorageError::NotConnected => ErrorView::NotConnected,
            StorageError::SyncFailed { cause } => ErrorView::SyncFailed { cause: cause@ },
            StorageError::BlobRead { workspace_id, id, cause } => ErrorView::BlobRead {
                workspace_id: opt_view(*workspace_id),
                id: id@,
                cause: cause@,
            },
        }
    }
}

/// The text that an absent workspace id contributes to a message: none.
pub open spec fn workspace_text(workspace_id: Option<Seq<char>>) -> Seq<char> {
    match workspace_id {
        Some(w) => w,
        None => Seq::empty(),
    }
}

/// The message of a blob read failure, naming the workspace, the blob and the
/// underlying cause.
pub open spec fn blob_read_message(
    workspace_id: Option<Seq<char>>,
    id: Seq<char>,
    cause: Seq<char>,
) -> Seq<char> {
    "Failed to read blob file "@ + workspace_text(workspace_id) + "/"@ + id
        + " from stream, error: "@ + cause
}

/// The message that the caller receives for an error.
pub open spec fn message_of(e: ErrorView) -> Seq<char> {
    match e {
        ErrorView::NotConnected => "Storage is not connected"@,
        ErrorView::SyncFailed { cause } => cause,
        ErrorView::BlobRead { workspace_id, id, cause } => blob_read_message(
            workspace_id,
            id,
            cause,
        ),
    }
}

/// The text of a generic failure with the given reason: the status, then the
/// reason where there is one.
pub open spec fn failure_text(reason: Seq<char>) -> Seq<char> {
    if reason.len() == 0 {
        "GenericFailure"@
    } else {
        "GenericFailure, "@ + reason
    }
}

/// Whether `part` occurs in `whole` as a contiguous run.
pub open spec fn contains(whole: Seq<char>, part: Seq<char>) -> bool {
    exists|i: int|
        0 <= i && i + part.len() <= whole.len() && #[trigger] whole.subrange(i, i + part.len())
            == part
}

impl StorageError {
    /// The message of this error, as the caller sees it.
    pub fn message(&self) -> (r: String)
        ensures
            r@ == message_of(self@),
    {
        match self {
            StorageError::NotConnected => String::from_str("Storage is not connected"),
            StorageError::SyncFailed { cause } => cause.clone(),
            StorageError::BlobRead { workspace_id, id, cause } => {
                let mut m = String::from_str("Failed to read blob file ");
                match workspace_id {
                    Some(w) => m.append(w.as_str()),
                    None => {},
                }
                m.append("/");
                m.append(id.as_str());
                m.append(" from stream, error: ");
                m.append(cause.as_str());
                m
            },
        }
    }

    /// The text under which this error is recorded: a generic failure whose
    /// reason is the error's message.
    pub fn failure_text(&self) -> (r: String)
        ensures
            r@ == failure_text(message_of(self@)),
    {
        let reason = self.message();
        if reason.as_str().is_empty() {
            String::from_str("GenericFailure")
        } else {
            let mut t = String::from_str("GenericFailure, ");
            t.append(reason.as_str());
            t
        }
    }
}

/// A blob read failure's message names the blob id, the workspace id where one
/// was given, and the underlying cause.
pub proof fn lemma_blob_message_names_its_subject(
    workspace_id: Option<Seq<char>>,
    id: Seq<char>,
    cause: Seq<char>,
)
    ensures
        contains(blob_read_message(workspace_id, id, cause), id),
        contains(blob_read_message(workspace_id, id, cause), cause),
        contains(blob_read_message(workspace_id, id, cause), workspace_text(workspace_id)),
{
    let pre = "Failed to read blob file "@;
    let w = workspace_text(workspace_id);
    let mid = " from stream, error: "@;
    let m = blob_read_message(workspace_id, id, cause);
    let a = pre + w;
    let b = a + "/"@;
    let c = b + id;
    let d = c + mid;
    assert(m == d + cause);
    assert(m.subrange(pre.len() as int, (pre.len() + w.len()) as int) =~= w);
    assert(m.subrange(b.len() as int, (b.len() + id.len()) as int) =~= id);
    assert(m.subrange(d.len() as int, (d.len() + cause.len()) as int) =~= cause);
}

} // verus!
