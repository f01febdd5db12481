//! The chunked uploader: how a file is cut into chunks, and the requests
//! and answers of the chunk protocol.
use vstd::prelude::*;
use crate::http::{is_success, HttpMethod, HttpRequest};
use crate::text::{decimal, decimal_string, push_str};
use crate::transfer::errors::{TransferError, TransferFault};
use crate::tus::exchange::{number_pair, pair};

verus! {

/// Settings of the chunked uploader.
#[derive(Clone, Copy, Debug)]
pub struct ChunkedConfig {
    /// The size of a chunk, in bytes.
    pub chunk_size: usize,
    /// How many chunks are sent at the same time.
    pub concurrent_chunks: usize,
}

/// One chunk of a file.
#[derive(Clone, Copy, Debug, PartialEq, Eq, Structural)]
pub struct ChunkInfo {
    pub index: usize,
    pub offset: u64,
    pub size: usize,
    pub uploaded: bool,
}

/// The chunked uploader of one endpoint; the HTTP client stays with the
/// runtime that sends the requests.
#[derive(Clone, Debug)]
pub struct ChunkedUploader {
    pub endpoint: String,
    pub config: ChunkedConfig,
}

/// `chunks` cut a file of `file_size` bytes into pieces of `chunk_size`, in
/// order, the last one holding what is left.
pub open spec fn is_chunk_plan(chunks: Seq<ChunkInfo>, file_size: u64, chunk_size: nat) -> bool {
    &&& (chunks.len() == 0 <==> file_size == 0)
    &&& chunks.len() > 0 ==> chunks[0].offset == 0
    &&& chunks.len() > 0 ==> chunks.last().offset + chunks.last().size == file_size
    &&& forall|i: int|
        0 <= i < chunks.len() ==> {
            &&& (#[trigger] chunks[i]).index == i
            &&& 0 < chunks[i].size <= chunk_size
            &&& !chunks[i].uploaded
            &&& i + 1 < chunks.len() ==> chunks[i].size == chunk_size && chunks[i + 1].offset
                == chunks[i].offset + chunks[i].size
        }
}

impl ChunkedUploader {
    pub fn new(endpoint: &str, config: ChunkedConfig) -> (r: ChunkedUploader)
        ensures
            r.endpoint@ == endpoint@,
            r.config == config,
    {
        let mut e = String::new();
        push_str(&mut e, endpoint);
        ChunkedUploader { endpoint: e, config }
    }

    /// Cuts a file of `file_size` bytes into chunks of the configured size.
    pub fn calculate_chunks(&self, file_size: u64) -> (r: Vec<ChunkInfo>)
        requires
            self.config.chunk_size > 0 || file_size == 0,
            self.config.chunk_size <= u64::MAX,
        ensures
            is_chunk_plan(r@, file_size, self.config.chunk_size as nat),
    {
        calculate_chunks(&self.config, file_size)
    }

    /// The request that sends one chunk of the upload `upload_id`.
    pub fn upload_chunk_request(&self, upload_id: &str, chunk: &ChunkInfo) -> (r: HttpRequest)
        ensures
            r.method == HttpMethod::Put,
            r.url@ == self.endpoint@ + "/chunk"@,
            r.headers@.len() == 0,
            crate::http::headers_view(r.appended@) == seq![
                ("X-Upload-Id"@, upload_id@),
                ("X-Chunk-Index"@, decimal(chunk.index as nat)),
                ("X-Chunk-Offset"@, decimal(chunk.offset as nat)),
            ],
    {
        chunk_request(self.endpoint.as_str(), upload_id, chunk)
    }
}

/// The sizes of the chunks added up.
pub open spec fn total_size(chunks: Seq<ChunkInfo>) -> nat
    decreases chunks.len(),
{
    if chunks.len() == 0 {
        0
    } else {
        total_size(chunks.drop_last()) + chunks.last().size as nat
    }
}

proof fn lemma_offset_is_size_before(chunks: Seq<ChunkInfo>, file_size: u64, chunk_size: nat, k: int)
    requires
        is_chunk_plan(chunks, file_size, chunk_size),
        0 <= k < chunks.len(),
    ensures
        chunks[k].offset == total_size(chunks.take(k)),
    decreases k,
{
    if k > 0 {
        lemma_offset_is_size_before(chunks, file_size, chunk_size, k - 1);
        assert(chunks.take(k).drop_last() =~= chunks.take(k - 1));
        assert(chunks[k - 1].offset + chunks[k - 1].size == chunks[k].offset);
    } else {
        assert(chunks.take(0) =~= Seq::<ChunkInfo>::empty());
    }
}

/// Law: a chunk plan covers the file exactly: the chunks' sizes add up to the
/// file's size, and each chunk starts where the ones before it end.
pub proof fn law_chunks_cover_file(chunks: Seq<ChunkInfo>, file_size: u64, chunk_size: nat)
    requires
        is_chunk_plan(chunks, file_size, chunk_size),
    ensures
        total_size(chunks) == file_size,
        forall|k: int| 0 <= k < chunks.len() ==> (#[trigger] chunks[k]).offset == total_size(chunks.take(k)),
{
    assert forall|k: int| 0 <= k < chunks.len() implies (#[trigger] chunks[k]).offset == total_size(chunks.take(k)) by {
        lemma_offset_is_size_before(chunks, file_size, chunk_size, k);
    }
    if chunks.len() > 0 {
        let n = chunks.len() - 1;
        lemma_offset_is_size_before(chunks, file_size, chunk_size, n as int);
        assert(chunks.take(n as int) =~= chunks.drop_last());
    }
}

/// Cuts a file of `file_size` bytes into chunks of the configured size.
pub fn calculate_chunks(config: &ChunkedConfig, file_size: u64) -> (r: Vec<ChunkInfo>)
    requires
        config.chunk_size > 0 || file_size == 0,
        config.chunk_size <= u64::MAX,
    ensures
        is_chunk_plan(r@, file_size, config.chunk_size as nat),
{
    let chunk_size = config.chunk_size as u64;
    let mut chunks: Vec<ChunkInfo> = Vec::new();
    let mut offset: u64 = 0;
    let mut index: usize = 0;
    while offset < file_size
        invariant
            chunk_size == config.chunk_size,
            chunk_size > 0 || file_size == 0,
            offset <= file_size,
            index == chunks@.len(),
            chunks@.len() == 0 <==> offset == 0,
            chunks@.len() > 0 ==> chunks@[0].offset == 0,
            chunks@.len() > 0 ==> chunks@.last().offset + chunks@.last().size == offset,
            forall|i: int|
                0 <= i < chunks@.len() ==> {
                    &&& (#[trigger] chunks@[i]).index == i
                    &&& 0 < chunks@[i].size <= chunk_size
                    &&& !chunks@[i].uploaded
                    &&& i + 1 < chunks@.len() ==> chunks@[i].size == chunk_size
                        && chunks@[i + 1].offset == chunks@[i].offset + chunks@[i].size
                },
            chunks@.len() > 0 && offset < file_size ==> chunks@.last().size == chunk_size,
            index <= offset,
        decreases file_size - offset,
    {
        let size = if chunk_size < file_size - offset { chunk_size } else { file_size - offset };
        chunks.push(ChunkInfo { index, offset, size: size as usize, uploaded: false });
        offset = offset + size;
        index = chunks.len();
    }
    chunks
}

/// The request that sends one chunk, whose bytes the runtime reads from the
/// file.
pub fn chunk_request(endpoint: &str, upload_id: &str, chunk: &ChunkInfo) -> (r: HttpRequest)
    ensures
        r.method == HttpMethod::Put,
        r.url@ == endpoint@ + "/chunk"@,
        r.headers@.len() == 0,
        crate::http::headers_view(r.appended@) == seq![
            ("X-Upload-Id"@, upload_id@),
            ("X-Chunk-Index"@, decimal(chunk.index as nat)),
            ("X-Chunk-Offset"@, decimal(chunk.offset as nat)),
        ],
{
    let mut url = String::new();
    push_str(&mut url, endpoint);
    push_str(&mut url, "/chunk");
    let mut appended: Vec<(String, String)> = Vec::new();
    appended.push(pair("X-Upload-Id", upload_id));
    appended.push(number_pair("X-Chunk-Index", chunk.index as u64));
    appended.push(number_pair("X-Chunk-Offset", chunk.offset));
    proof {
        assert(crate::http::headers_view(appended@) =~= seq![
            ("X-Upload-Id"@, upload_id@),
            ("X-Chunk-Index"@, decimal(chunk.index as nat)),
            ("X-Chunk-Offset"@, decimal(chunk.offset as nat)),
        ]);
    }
    HttpRequest { method: HttpMethod::Put, url, headers: Vec::new(), appended }
}

/// Reads the answer to a chunk: anything but a success fails the chunk.
pub fn chunk_result(status: u16, chunk: &ChunkInfo) -> (r: Result<(), TransferError>)
    ensures
        r is Ok <==> is_success(status),
        r matches Err(e) ==> e@ == (TransferFault::ServerError {
            status,
            message: "Failed to upload chunk "@ + decimal(chunk.index as nat),
        }),
{
    if 200 <= status && status <= 299 {
        Ok(())
    } else {
        let mut m = String::new();
        push_str(&mut m, "Failed to upload chunk ");
        let n = decimal_string(chunk.index as u64);
        push_str(&mut m, n.as_str());
        Err(TransferError::server_error(status, m))
    }
}

/// The indices of the chunks, in order, as the completion request lists them.
pub fn chunk_indices(chunks: &Vec<ChunkInfo>) -> (r: Vec<usize>)
    ensures
        r@ == chunks@.map_values(|c: ChunkInfo| c.index),
{
    let mut r: Vec<usize> = Vec::new();
    let mut i: usize = 0;
    while i < chunks.len()
        invariant
            i <= chunks@.len(),
            r@ == chunks@.subrange(0, i as int).map_values(|c: ChunkInfo| c.index),
        decreases chunks@.len() - i,
    {
        r.push(chunks[i].index);
        assert(chunks@.subrange(0, i + 1).map_values(|c: ChunkInfo| c.index) =~= chunks@.subrange(0, i as int).map_values(|c: ChunkInfo| c.index).push(chunks@[i as int].index));
        i = i + 1;
    }
    assert(chunks@.subrange(0, chunks@.len() as int) == chunks@);
    r
}

/// Reads the answer to the start or the end of a multipart upload: anything
/// but a success fails with the given message.
pub fn multipart_status(status: u16, failure: &str) -> (r: Result<(), TransferError>)
    ensures
        r is Ok <==> is_success(status),
        r matches Err(e) ==> e@ == (TransferFault::ServerError { status, message: failure@ }),
{
    if 200 <= status && status <= 299 {
        Ok(())
    } else {
        let mut m = String::new();
        push_str(&mut m, failure);
        Err(TransferError::server_error(status, m))
    }
}

} // verus!
