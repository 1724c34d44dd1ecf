use vstd::prelude::*;
use crate::error::{
    contains, lemma_blob_message_names_its_subject, message_of, opt_view, workspace_text,
    ErrorView, StorageError,
};

verus! {

/// One item of a blob's chunk stream: the chunk's bytes, or why it failed.
pub type Chunk = Result<Vec<u8>, String>;

/// A chunk as plain values.
pub type ChunkView = Result<Seq<u8>, Seq<char>>;

pub open spec fn chunk_view(c: Chunk) -> ChunkView {
    match c {
        Ok(b) => Ok(b@),
        Err(e) => Err(e@),
    }
}

pub open spec fn chunks_view(cs: Seq<Chunk>) -> Seq<ChunkView> {
    cs.map_values(|c: Chunk| chunk_view(c))
}

/// The bytes of the chunks that read, in stream order.
pub open spec fn read_bytes(chunks: Seq<ChunkView>) -> Seq<u8>
    decreases chunks.len(),
{
    if chunks.len() == 0 {
        Seq::empty()
    } else {
        read_bytes(chunks.drop_last()) + match chunks.last() {
            Ok(b) => b,
            Err(_) => Seq::empty(),
        }
    }
}

/// The cause of the last chunk that failed, if any failed.
pub open spec fn last_failure(chunks: Seq<ChunkView>) -> Option<Seq<char>>
    decreases chunks.len(),
{
    if chunks.len() == 0 {
        None
    } else {
        match chunks.last() {
            Err(e) => Some(e),
            Ok(_) => last_failure(chunks.drop_last()),
        }
    }
}

/// Whether every chunk of the stream read.
pub open spec fn all_read(chunks: Seq<ChunkView>) -> bool {
    forall|i: int| 0 <= i < chunks.len() ==> (#[trigger] chunks[i]) is Ok
}

/// What retrieving a blob yields from its chunk stream: the whole content, or
/// the failure of the last chunk that did not read, never a part.
pub open spec fn blob_result(
    workspace_id: Option<Seq<char>>,
    id: Seq<char>,
    chunks: Seq<ChunkView>,
) -> Result<Seq<u8>, ErrorView> {
    match last_failure(chunks) {
        Some(cause) => Err(ErrorView::BlobRead { workspace_id, id, cause }),
        None => Ok(read_bytes(chunks)),
    }
}

pub open spec fn result_view(r: Result<Vec<u8>, StorageError>) -> Result<Seq<u8>, ErrorView> {
    match r {
        Ok(b) => Ok(b@),
        Err(e) => Err(e@),
    }
}

/// Assembles a blob from its chunk stream, one chunk at a time.
pub struct BlobReader {
    workspace_id: Option<String>,
    id: String,
    contents: Vec<u8>,
    failure: Option<String>,
    seen: Ghost<Seq<ChunkView>>,
}

impl BlobReader {
    /// The workspace the blob belongs to, if it is workspace-scoped.
    pub closed spec fn workspace_id(&self) -> Option<Seq<char>> {
        opt_view(self.workspace_id)
    }

    /// The blob's id.
    pub closed spec fn id(&self) -> Seq<char> {
        self.id@
    }

    /// The chunks read so far, in stream order.
    pub closed spec fn seen(&self) -> Seq<ChunkView> {
        self.seen@
    }

    pub closed spec fn wf(&self) -> bool {
        &&& self.contents@ == read_bytes(self.seen@)
        &&& opt_view(self.failure) == last_failure(self.seen@)
    }

    /// A reader for the blob `id` of `workspace_id` that has seen no chunk.
    pub fn new(workspace_id: Option<String>, id: String) -> (r: BlobReader)
        ensures
            r.wf(),
            r.workspace_id() == opt_view(workspace_id),
            r.id() == id@,
            r.seen() == Seq::<ChunkView>::empty(),
    {
        BlobReader {
            workspace_id,
            id,
            contents: Vec::new(),
            failure: None,
            seen: Ghost(Seq::empty()),
        }
    }

    /// Takes the outcome of opening the blob's stream. A stream that cannot be
    /// opened means the blob cannot be had from the store.
    pub fn open<T, E>(self, opened: Result<T, E>) -> (r: Result<(T, BlobReader), StorageError>)
        ensures
            opened is Ok <==> r is Ok,
            r is Err ==> r->Err_0@ == ErrorView::NotConnected,
            r is Ok ==> r->Ok_0.0 == opened->Ok_0 && r->Ok_0.1 == self,
    {
        match opened {
            Ok(stream) => Ok((stream, self)),
            Err(_) => Err(StorageError::NotConnected),
        }
    }

    /// Takes the next item of the stream: a chunk's bytes are appended, a
    /// failure is remembered, and reading goes on either way.
    pub fn push_chunk(&mut self, chunk: Chunk)
        requires
            old(self).wf(),
            read_bytes(old(self).seen()).len() + match chunk {
                Ok(b) => b@.len(),
                Err(_) => 0,
            } <= usize::MAX,
        ensures
            final(self).wf(),
            final(self).workspace_id() == old(self).workspace_id(),
            final(self).id() == old(self).id(),
            final(self).seen() == old(self).seen().push(chunk_view(chunk)),
    {
        let ghost prev = self.seen@;
        let ghost c = chunk_view(chunk);
        match chunk {
            Ok(mut bytes) => {
                self.contents.append(&mut bytes);
            },
            Err(cause) => {
                self.failure = Some(cause);
            },
        }
        self.seen = Ghost(prev.push(c));
        assert(self.seen@.drop_last() == prev);
    }

    /// The number of bytes assembled so far.
    pub fn len(&self) -> (r: usize)
        requires
            self.wf(),
        ensures
            r == read_bytes(self.seen()).len(),
    {
        self.contents.len()
    }

    /// Ends the stream: the whole content if every chunk read, else the
    /// failure of the last chunk that did not, with the blob named.
    pub fn finish(self) -> (r: Result<Vec<u8>, StorageError>)
        requires
            self.wf(),
        ensures
            result_view(r) == blob_result(self.workspace_id(), self.id(), self.seen()),
    {
        match self.failure {
            Some(cause) => Err(
                StorageError::BlobRead { workspace_id: self.workspace_id, id: self.id, cause },
            ),
            None => Ok(self.contents),
        }
    }
}

/// Assembles a blob from the whole of its chunk stream.
pub fn assemble_blob(workspace_id: Option<String>, id: String, chunks: Vec<Chunk>) -> (r: Result<
    Vec<u8>,
    StorageError,
>)
    requires
        read_bytes(chunks_view(chunks@)).len() <= usize::MAX,
    ensures
        result_view(r) == blob_result(opt_view(workspace_id), id@, chunks_view(chunks@)),
{
    let ghost all = chunks_view(chunks@);
    let mut reader = BlobReader::new(workspace_id, id);
    for chunk in it: chunks.into_iter()
        invariant
            reader.wf(),
            reader.workspace_id() == opt_view(workspace_id),
            reader.id() == id@,
            all == chunks_view(it.seq()),
            reader.seen() == all.subrange(0, it.index() as int),
            read_bytes(all).len() <= usize::MAX,
    {
        proof {
            let k = it.index() as int;
            lemma_read_bytes_prefix(all, k + 1);
            assert(all.subrange(0, k + 1).drop_last() == all.subrange(0, k));
        }
        reader.push_chunk(chunk);
    }
    proof {
        assert(reader.seen() == all);
    }
    reader.finish()
}

/// The bytes read from a prefix of a stream are no more than those of the
/// whole stream.
proof fn lemma_read_bytes_prefix(chunks: Seq<ChunkView>, k: int)
    requires
        0 <= k <= chunks.len(),
    ensures
        read_bytes(chunks.subrange(0, k)).len() <= read_bytes(chunks).len(),
    decreases chunks.len() - k,
{
    if k < chunks.len() {
        lemma_read_bytes_prefix(chunks, k + 1);
        assert(chunks.subrange(0, k + 1).drop_last() == chunks.subrange(0, k));
    } else {
        assert(chunks.subrange(0, k) == chunks);
    }
}

/// The payloads of a stream whose chunks all read.
pub open spec fn payloads(chunks: Seq<ChunkView>) -> Seq<Seq<u8>> {
    chunks.map_values(|c: ChunkView| c->Ok_0)
}

/// Where every chunk of a blob's stream reads, retrieval yields exactly the
/// concatenation of the chunks, in stream order.
pub proof fn lemma_blob_is_concatenation(
    workspace_id: Option<Seq<char>>,
    id: Seq<char>,
    chunks: Seq<ChunkView>,
)
    requires
        all_read(chunks),
    ensures
        blob_result(workspace_id, id, chunks) == Ok::<Seq<u8>, ErrorView>(
            payloads(chunks).flatten(),
        ),
{
    lemma_read_stream(chunks);
    payloads(chunks).lemma_flatten_and_flatten_alt_are_equivalent();
}

proof fn lemma_read_stream(chunks: Seq<ChunkView>)
    requires
        all_read(chunks),
    ensures
        last_failure(chunks) is None,
        read_bytes(chunks) == payloads(chunks).flatten_alt(),
    decreases chunks.len(),
{
    if chunks.len() > 0 {
        let rest = chunks.drop_last();
        assert(all_read(rest)) by {
            assert forall|i: int| 0 <= i < rest.len() implies (#[trigger] rest[i]) is Ok by {
                assert(rest[i] == chunks[i]);
            }
        }
        lemma_read_stream(rest);
        assert(chunks[chunks.len() - 1] is Ok);
        assert(payloads(chunks).drop_last() =~= payloads(rest));
    }
}

/// Where any chunk of a blob's stream fails, retrieval fails as a whole: it
/// yields no bytes, and its error names the workspace and the blob.
pub proof fn lemma_failed_chunk_fails_blob(
    workspace_id: Option<Seq<char>>,
    id: Seq<char>,
    chunks: Seq<ChunkView>,
    i: int,
)
    requires
        0 <= i < chunks.len(),
        chunks[i] is Err,
    ensures
        blob_result(workspace_id, id, chunks) is Err,
        blob_result(workspace_id, id, chunks)->Err_0 is BlobRead,
        contains(message_of(blob_result(workspace_id, id, chunks)->Err_0), id),
        contains(
            message_of(blob_result(workspace_id, id, chunks)->Err_0),
            workspace_text(workspace_id),
        ),
{
    lemma_failure_is_remembered(chunks, i);
    let cause = last_failure(chunks)->Some_0;
    lemma_blob_message_names_its_subject(workspace_id, id, cause);
}

proof fn lemma_failure_is_remembered(chunks: Seq<ChunkView>, i: int)
    requires
        0 <= i < chunks.len(),
        chunks[i] is Err,
    ensures
        last_failure(chunks) is Some,
    decreases chunks.len(),
{
    if i < chunks.len() - 1 {
        let rest = chunks.drop_last();
        assert(rest[i] == chunks[i]);
        lemma_failure_is_remembered(rest, i);
    }
}

/// Retrieving a blob twice from the same stream content yields the same
/// result, byte for byte.
pub proof fn lemma_blob_retrieval_repeatable(
    workspace_id: Option<Seq<char>>,
    id: Seq<char>,
    first: Seq<ChunkView>,
    second: Seq<ChunkView>,
)
    requires
        first == second,
    ensures
        blob_result(workspace_id, id, first) == blob_result(workspace_id, id, second),
{
}

} // verus!
