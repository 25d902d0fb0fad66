use vstd::prelude::*;
use vstd::string::StringExecFns;
use crate::errors::ClientError;
use crate::errors::STATUS_OK;
use crate::errors::is_success_status;
use crate::errors::status_is_success;
use crate::strutil::dec_text;
use crate::strutil::u64_to_dec;

verus! {

/// The ephemeral state of one in-flight download: where the staged bytes go,
/// how many arrived, and what the server declared as the total length.
pub struct Transfer {
    /// The file name taken from the response header.
    pub file_name: String,
    /// The staging path the body is written to: the final path plus `.tmp`.
    pub temp_path: String,
    /// The path the finished file is renamed to: `{dest}/{file_name}`.
    pub final_path: String,
    /// How many bytes the writer has accepted so far.
    pub written: u64,
    /// The declared total length, or `Unknown` when the server gave none.
    pub total_text: String,
    /// The bytes recorded so far: the model of the staged file's content.
    pub content: Ghost<Seq<u8>>,
    /// Whether the end of the body has been recorded.
    pub finished: bool,
}

impl Transfer {
    /// The transfer invariant: the modelled content matches the byte count,
    /// and the staging path is the final path with the `.tmp` suffix.
    pub open spec fn wf(self) -> bool {
        &&& self.content@.len() == self.written
        &&& self.temp_path@ == self.final_path@ + ".tmp"@
    }

    /// Record one chunk read from the body together with the writer's report
    /// of how many of its bytes were accepted. A writer that accepts none of
    /// a non-empty chunk has stalled, which fails the transfer; otherwise the
    /// accepted prefix joins the recorded content.
    pub fn record_chunk(&mut self, chunk: &Vec<u8>, bytes_written: usize) -> (r: Result<
        (),
        ClientError,
    >)
        requires
            old(self).wf(),
            !old(self).finished,
            bytes_written <= chunk@.len(),
            old(self).written + bytes_written <= u64::MAX,
        ensures
            chunk@.len() > 0 && bytes_written == 0 ==> r == Err::<(), ClientError>(
                ClientError::WriteSyncFailed,
            ) && *final(self) == *old(self),
            !(chunk@.len() > 0 && bytes_written == 0) ==> {
                &&& r is Ok
                &&& final(self).content@ == old(self).content@ + chunk@.subrange(
                    0,
                    bytes_written as int,
                )
                &&& final(self).written == old(self).written + bytes_written
                &&& final(self).file_name == old(self).file_name
                &&& final(self).temp_path == old(self).temp_path
                &&& final(self).final_path == old(self).final_path
                &&& final(self).total_text == old(self).total_text
                &&& !final(self).finished
                &&& final(self).wf()
            },
    {
        if chunk.len() > 0 && bytes_written == 0 {
            return Err(ClientError::WriteSyncFailed);
        }
        self.written = self.written + bytes_written as u64;
        proof {
            self.content@ = self.content@ + chunk@.subrange(0, bytes_written as int);
        }
        Ok(())
    }

    /// Record that the body ended: only then may the transfer be committed.
    pub fn finish_body(&mut self)
        requires
            old(self).wf(),
            !old(self).finished,
        ensures
            final(self).finished,
            final(self).content == old(self).content,
            final(self).written == old(self).written,
            final(self).file_name == old(self).file_name,
            final(self).temp_path == old(self).temp_path,
            final(self).final_path == old(self).final_path,
            final(self).total_text == old(self).total_text,
            final(self).wf(),
    {
        self.finished = true;
    }

    /// The sole commit point of a download: the rename that moves the staged
    /// file from the temporary path to the final path, available only once
    /// the whole body has been recorded.
    pub fn commit_instruction(&self) -> (r: (String, String))
        requires
            self.finished,
        ensures
            r.0 == self.temp_path,
            r.1 == self.final_path,
    {
        (self.temp_path.clone(), self.final_path.clone())
    }
}

/// Begin a download from the response head: a non-OK status fails with the
/// bare HTTP error, a missing file-name header fails as a protocol violation,
/// and otherwise the transfer is staged under `{dest}/{file_name}.tmp` with
/// nothing recorded yet.
pub fn begin_download(
    status: u16,
    file_name: Option<String>,
    content_length: Option<u64>,
    dest: &str,
) -> (r: Result<Transfer, ClientError>)
    ensures
        status != STATUS_OK ==> r == Err::<Transfer, ClientError>(ClientError::Http(status)),
        status == STATUS_OK && file_name is None ==> r == Err::<Transfer, ClientError>(
            ClientError::NoXFilename,
        ),
        status == STATUS_OK && file_name is Some ==> (r matches Ok(t) && t.file_name
            == file_name->Some_0 && t.final_path@ == dest@ + "/"@ + file_name->Some_0@
            && t.temp_path@ == t.final_path@ + ".tmp"@ && t.written == 0 && t.content@ == Seq::<
            u8,
        >::empty() && !t.finished && (content_length matches Some(n) ==> t.total_text@ == dec_text(
            n as nat,
        )) && (content_length is None ==> t.total_text@ == "Unknown"@) && t.wf()),
{
    if status != STATUS_OK {
        return Err(ClientError::Http(status));
    }
    match file_name {
        None => Err(ClientError::NoXFilename),
        Some(name) => {
            let mut final_path = String::from_str(dest);
            final_path.append("/");
            final_path.append(name.as_str());
            let mut temp_path = final_path.clone();
            temp_path.append(".tmp");
            let total_text = match content_length {
                Some(n) => u64_to_dec(n),
                None => String::from_str("Unknown"),
            };
            proof {
                assert(final_path@ =~= dest@ + "/"@ + name@);
            }
            Ok(
                Transfer {
                    file_name: name,
                    temp_path,
                    final_path,
                    written: 0,
                    total_text,
                    content: Ghost(Seq::empty()),
                    finished: false,
                },
            )
        },
    }
}

/// The byte content of a body, as the concatenation of its chunks.
pub open spec fn stream_content(chunks: Seq<Seq<u8>>) -> Seq<u8>
    decreases chunks.len(),
{
    if chunks.len() == 0 {
        Seq::<u8>::empty()
    } else {
        stream_content(chunks.drop_last()) + chunks.last()
    }
}

/// The total byte length of a chunked body.
pub open spec fn stream_len(chunks: Seq<Seq<u8>>) -> nat {
    stream_content(chunks).len()
}

proof fn lemma_stream_take_step(cs: Seq<Seq<u8>>, i: int)
    requires
        0 <= i < cs.len(),
    ensures
        stream_content(cs.take(i + 1)) == stream_content(cs.take(i)) + cs[i],
{
    assert(cs.take(i + 1).drop_last() =~= cs.take(i));
    assert(cs.take(i + 1).last() == cs[i]);
    assert(stream_content(cs.take(i + 1)) =~= stream_content(cs.take(i)) + cs[i]);
}

proof fn lemma_stream_take_len(cs: Seq<Seq<u8>>, i: int)
    requires
        0 <= i <= cs.len(),
    ensures
        stream_len(cs.take(i)) <= stream_len(cs),
    decreases cs.len() - i,
{
    if i == cs.len() {
        assert(cs.take(i) =~= cs);
    } else {
        lemma_stream_take_step(cs, i);
        lemma_stream_take_len(cs, i + 1);
    }
}

/// Drive one transfer over a whole body, each chunk written in full. However
/// the body was split into chunks, the content this records is byte-for-byte
/// the concatenation of those chunks, and the transfer finishes only after
/// the last of them.
pub fn run_body(t: &mut Transfer, chunks: &Vec<Vec<u8>>) -> (r: Result<(), ClientError>)
    requires
        old(t).wf(),
        !old(t).finished,
        old(t).written + stream_len(chunks@.map_values(|c: Vec<u8>| c@)) <= u64::MAX,
    ensures
        r is Ok,
        final(t).content@ == old(t).content@ + stream_content(
            chunks@.map_values(|c: Vec<u8>| c@),
        ),
        final(t).written == old(t).written + stream_len(chunks@.map_values(|c: Vec<u8>| c@)),
        final(t).finished,
        final(t).file_name == old(t).file_name,
        final(t).temp_path == old(t).temp_path,
        final(t).final_path == old(t).final_path,
        final(t).total_text == old(t).total_text,
        final(t).wf(),
{
    let ghost cs = chunks@.map_values(|c: Vec<u8>| c@);
    let mut i: usize = 0;
    while i < chunks.len()
        invariant
            i <= chunks@.len(),
            cs == chunks@.map_values(|c: Vec<u8>| c@),
            old(t).written + stream_len(cs) <= u64::MAX,
            t.wf(),
            !t.finished,
            t.content@ == old(t).content@ + stream_content(cs.take(i as int)),
            t.written == old(t).written + stream_len(cs.take(i as int)),
            t.file_name == old(t).file_name,
            t.temp_path == old(t).temp_path,
            t.final_path == old(t).final_path,
            t.total_text == old(t).total_text,
        decreases chunks@.len() - i,
    {
        let chunk = &chunks[i];
        let n: usize = chunk.len();
        proof {
            lemma_stream_take_step(cs, i as int);
            lemma_stream_take_len(cs, i as int + 1);
            assert(cs[i as int] == chunk@);
        }
        let _ = t.record_chunk(chunk, n);
        proof {
            assert(chunk@.subrange(0, n as int) =~= chunk@);
            assert(t.content@ =~= old(t).content@ + stream_content(cs.take(i as int + 1)));
        }
        i = i + 1;
    }
    proof {
        assert(cs.take(chunks@.len() as int) =~= cs);
    }
    t.finish_body();
    Ok(())
}

/// The two instructions an upload issues before reading the response: where
/// to seek the file, and the body length to declare up front.
#[derive(Clone, Copy, Debug, PartialEq, Eq)]
pub struct UploadPlan {
    pub seek_to: u64,
    pub body_len: u64,
}

/// Plan an upload of a file of the given length. The file is always rewound
/// to its start and sent whole as a sized body, so planning the same upload
/// twice yields the same full-length body both times, even after the file was
/// already read once.
pub fn plan_upload(file_len: u64) -> (p: UploadPlan)
    ensures
        p.seek_to == 0,
        p.body_len == file_len,
{
    UploadPlan { seek_to: 0, body_len: file_len }
}

/// Interpret the status an upload ended with: success for any success-class
/// code, the bare HTTP error for every other.
pub fn upload_outcome(status: u16) -> (r: Result<(), ClientError>)
    ensures
        is_success_status(status) ==> r is Ok,
        !is_success_status(status) ==> r == Err::<(), ClientError>(ClientError::Http(status)),
{
    if status_is_success(status) {
        Ok(())
    } else {
        Err(ClientError::Http(status))
    }
}

} // verus!
