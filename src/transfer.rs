//! Per-transfer bookkeeping: where a downloaded object lives locally, the
//! running byte count behind each progress message, and the single
//! completion that ends a transfer.

use vstd::prelude::*;

use crate::protocol::{ProgressResponse, ProtocolError, TransferResponse};

verus! {

/// The directory under which downloaded objects are sharded.
pub open spec fn objects_root() -> Seq<char> {
    ".git/lfs/objects/"@
}

/// `<root>/<oid[0..2]>/<oid[2..4]>/<oid>`.
pub open spec fn object_path(oid: Seq<char>) -> Seq<char> {
    objects_root() + oid.subrange(0, 2) + "/"@ + oid.subrange(2, 4) + "/"@ + oid
}

/// The local path of an object, sharded by the first four characters of its id.
pub fn local_path(oid: &str) -> (r: String)
    requires
        oid@.len() >= 4,
    ensures
        r@ == object_path(oid@),
{
    let mut s = String::from_str(".git/lfs/objects/");
    s.append(oid.substring_char(0, 2));
    s.append("/");
    s.append(oid.substring_char(2, 4));
    s.append("/");
    s.append(oid);
    s
}

/// The local path is a function of the id alone, ends in
/// `oid[0..2]/oid[2..4]/oid` under the objects root, and no two ids share one.
pub proof fn lemma_local_path_shape(a: Seq<char>, b: Seq<char>)
    requires
        a.len() >= 4,
        b.len() >= 4,
    ensures
        object_path(a).len() == objects_root().len() + a.len() + 6,
        object_path(a).subrange(0, objects_root().len() as int) == objects_root(),
        object_path(a).subrange(objects_root().len() as int, object_path(a).len() as int)
            == a.subrange(0, 2) + "/"@ + a.subrange(2, 4) + "/"@ + a,
        a == b ==> object_path(a) == object_path(b),
        object_path(a) == object_path(b) ==> a == b,
{
    reveal_strlit("/");
    reveal_strlit(".git/lfs/objects/");
    let root = objects_root();
    let pa = object_path(a);
    let tail = a.subrange(0, 2) + "/"@ + a.subrange(2, 4) + "/"@ + a;
    assert(pa =~= root + tail);
    assert(pa.subrange(0, root.len() as int) =~= root);
    assert(pa.subrange(root.len() as int, pa.len() as int) =~= tail);
    if object_path(a) == object_path(b) {
        let pb = object_path(b);
        assert(pb.len() == root.len() + b.len() + 6);
        assert(a.len() == b.len());
        assert(pa.subrange(pa.len() - a.len(), pa.len() as int) =~= a);
        assert(pb.subrange(pb.len() - b.len(), pb.len() as int) =~= b);
    }
}

/// What a transfer has sent so far, in order.
pub enum Emitted {
    Progress { so_far: nat, since_last: nat },
    Complete,
}

/// The sum of the chunk lengths.
pub open spec fn total(chunks: Seq<nat>) -> nat
    decreases chunks.len(),
{
    if chunks.len() == 0 {
        0
    } else {
        total(chunks.drop_last()) + chunks.last()
    }
}

/// One progress record per chunk: the running total and the chunk's length.
pub open spec fn progress_records(chunks: Seq<nat>) -> Seq<Emitted> {
    Seq::new(
        chunks.len(),
        |i: int| Emitted::Progress { so_far: total(chunks.take(i + 1)), since_last: chunks[i] },
    )
}

/// Everything a transfer sends: its progress records, then the completion once finished.
pub open spec fn transfer_run(chunks: Seq<nat>, finished: bool) -> Seq<Emitted> {
    if finished {
        progress_records(chunks).push(Emitted::Complete)
    } else {
        progress_records(chunks)
    }
}

/// The number of completions in a run of messages.
pub open spec fn completions(s: Seq<Emitted>) -> nat
    decreases s.len(),
{
    if s.len() == 0 {
        0
    } else {
        completions(s.drop_last()) + if s.last() is Complete {
            1nat
        } else {
            0nat
        }
    }
}

proof fn lemma_total_step(c: Seq<nat>, k: int)
    requires
        0 <= k < c.len(),
    ensures
        total(c.take(k + 1)) == total(c.take(k)) + c[k],
{
    assert(c.take(k + 1).drop_last() =~= c.take(k));
}

proof fn lemma_total_grows(c: Seq<nat>, i: int, j: int)
    requires
        0 <= i < j <= c.len(),
        forall|k: int| 0 <= k < c.len() ==> c[k] > 0,
    ensures
        total(c.take(i)) < total(c.take(j)),
    decreases j - i,
{
    lemma_total_step(c, j - 1);
    if i < j - 1 {
        lemma_total_grows(c, i, j - 1);
    }
}

/// Over a transfer whose chunks are all non-empty, the running totals rise
/// strictly, the last equals the bytes moved, and each record carries its
/// chunk's length.
pub proof fn lemma_progress_accounting(chunks: Seq<nat>)
    requires
        forall|k: int| 0 <= k < chunks.len() ==> chunks[k] > 0,
    ensures
        progress_records(chunks).len() == chunks.len(),
        forall|i: int, j: int|
            0 <= i < j < chunks.len() ==> (#[trigger] progress_records(chunks)[i])->so_far
                < (#[trigger] progress_records(chunks)[j])->so_far,
        forall|i: int|
            0 <= i < chunks.len() ==> (#[trigger] progress_records(chunks)[i])->since_last
                == chunks[i],
        chunks.len() > 0 ==> progress_records(chunks).last()->so_far == total(chunks),
{
    assert forall|i: int, j: int| 0 <= i < j < chunks.len() implies (
    #[trigger] progress_records(chunks)[i])->so_far < (
    #[trigger] progress_records(chunks)[j])->so_far by {
        lemma_total_grows(chunks, i + 1, j + 1);
    }
    if chunks.len() > 0 {
        assert(chunks.take(chunks.len() as int) =~= chunks);
    }
}

proof fn lemma_records_complete_free(chunks: Seq<nat>, n: int)
    requires
        0 <= n <= chunks.len(),
    ensures
        completions(progress_records(chunks).take(n)) == 0,
    decreases n,
{
    if n > 0 {
        assert(progress_records(chunks).take(n).drop_last() =~= progress_records(chunks).take(
            n - 1,
        ));
        lemma_records_complete_free(chunks, n - 1);
    }
}

/// A transfer sends no completion while it runs and exactly one once finished.
pub proof fn lemma_one_completion(chunks: Seq<nat>)
    ensures
        completions(transfer_run(chunks, false)) == 0,
        completions(transfer_run(chunks, true)) == 1,
{
    let r = progress_records(chunks);
    lemma_records_complete_free(chunks, chunks.len() as int);
    assert(r.take(chunks.len() as int) =~= r);
    assert(r.push(Emitted::Complete).drop_last() =~= r);
}

/// A message a transfer hands to the output channel.
pub enum Outbound {
    Progress(ProgressResponse),
    Complete(TransferResponse),
}

/// The running state of one upload or download.
pub struct Transfer {
    oid: String,
    bytes_so_far: usize,
    finished: bool,
    chunks: Ghost<Seq<nat>>,
}

impl Transfer {
    pub closed spec fn spec_oid(&self) -> Seq<char> {
        self.oid@
    }

    pub closed spec fn spec_bytes_so_far(&self) -> nat {
        self.bytes_so_far as nat
    }

    pub closed spec fn spec_finished(&self) -> bool {
        self.finished
    }

    /// The lengths of the chunks moved so far.
    pub closed spec fn spec_chunks(&self) -> Seq<nat> {
        self.chunks@
    }

    /// The messages this transfer has sent.
    pub open spec fn emitted(&self) -> Seq<Emitted> {
        transfer_run(self.spec_chunks(), self.spec_finished())
    }

    pub closed spec fn wf(&self) -> bool {
        self.bytes_so_far as nat == total(self.chunks@)
    }

    /// A transfer of `oid` that has moved nothing yet.
    pub fn new(oid: String) -> (r: Self)
        ensures
            r.wf(),
            r.spec_oid() == oid@,
            r.spec_chunks() == Seq::<nat>::empty(),
            r.spec_bytes_so_far() == 0,
            !r.spec_finished(),
    {
        Transfer { oid, bytes_so_far: 0, finished: false, chunks: Ghost(Seq::empty()) }
    }

    pub fn oid(&self) -> (r: &String)
        ensures
            r@ == self.spec_oid(),
    {
        &self.oid
    }

    pub fn bytes_so_far(&self) -> (r: usize)
        ensures
            r as nat == self.spec_bytes_so_far(),
    {
        self.bytes_so_far
    }

    /// True when one more chunk of `len` bytes can be counted.
    pub fn can_count(&self, len: usize) -> (r: bool)
        ensures
            r == (self.spec_bytes_so_far() + len <= usize::MAX),
    {
        len <= usize::MAX - self.bytes_so_far
    }

    /// Counts a chunk of `len` bytes and returns its progress message.
    pub fn on_chunk(&mut self, len: usize) -> (r: ProgressResponse)
        requires
            old(self).wf(),
            !old(self).spec_finished(),
            old(self).spec_bytes_so_far() + len <= usize::MAX,
        ensures
            final(self).wf(),
            final(self).spec_oid() == old(self).spec_oid(),
            !final(self).spec_finished(),
            final(self).spec_chunks() == old(self).spec_chunks().push(len as nat),
            final(self).spec_bytes_so_far() == old(self).spec_bytes_so_far() + len,
            final(self).emitted() == old(self).emitted().push(
                Emitted::Progress { so_far: final(self).spec_bytes_so_far(), since_last: len as nat },
            ),
            r.event@ == "progress"@,
            r.oid@ == old(self).spec_oid(),
            r.bytes_so_far as nat == final(self).spec_bytes_so_far(),
            r.bytes_since_last == len,
    {
        let ghost c0 = self.chunks@;
        self.bytes_so_far = self.bytes_so_far + len;
        self.chunks = Ghost(c0.push(len as nat));
        proof {
            let c1 = c0.push(len as nat);
            assert(c1.drop_last() =~= c0);
            assert forall|i: int| 0 <= i < c0.len() implies #[trigger] c1.take(i + 1) == c0.take(i + 1) by {
                assert(c1.take(i + 1) =~= c0.take(i + 1));
            }
            assert(c1.take(c1.len() as int) =~= c1);
            assert(progress_records(c1) =~= progress_records(c0).push(
                Emitted::Progress { so_far: total(c1), since_last: len as nat },
            ));
        }
        ProgressResponse::new(self.oid.clone(), self.bytes_so_far, len)
    }

    /// Ends a download: the completion names the object's local path.
    pub fn finish_download(&mut self) -> (r: TransferResponse)
        requires
            old(self).wf(),
            !old(self).spec_finished(),
            old(self).spec_oid().len() >= 4,
        ensures
            final(self).wf(),
            final(self).spec_finished(),
            final(self).spec_chunks() == old(self).spec_chunks(),
            final(self).spec_oid() == old(self).spec_oid(),
            final(self).emitted() == old(self).emitted().push(Emitted::Complete),
            r is Successful,
            r->Successful_event@ == "complete"@,
            r->Successful_oid@ == old(self).spec_oid(),
            r->Successful_path is Some,
            r->Successful_path->0@ == object_path(old(self).spec_oid()),
    {
        self.finished = true;
        let path = local_path(self.oid.as_str());
        TransferResponse::new(self.oid.clone(), Ok(Some(path)))
    }

    /// Ends an upload: the completion carries neither path nor error.
    pub fn finish_upload(&mut self) -> (r: TransferResponse)
        requires
            old(self).wf(),
            !old(self).spec_finished(),
        ensures
            final(self).wf(),
            final(self).spec_finished(),
            final(self).spec_chunks() == old(self).spec_chunks(),
            final(self).spec_oid() == old(self).spec_oid(),
            final(self).emitted() == old(self).emitted().push(Emitted::Complete),
            r is Successful,
            r->Successful_event@ == "complete"@,
            r->Successful_oid@ == old(self).spec_oid(),
            r->Successful_path is None,
    {
        self.finished = true;
        TransferResponse::new(self.oid.clone(), Ok(None))
    }

    /// Ends an upload that the store refused to open: the completion carries
    /// error code 1 and its message.
    pub fn finish_refused(&mut self) -> (r: TransferResponse)
        requires
            old(self).wf(),
            !old(self).spec_finished(),
        ensures
            final(self).wf(),
            final(self).spec_finished(),
            final(self).spec_chunks() == old(self).spec_chunks(),
            final(self).spec_oid() == old(self).spec_oid(),
            final(self).emitted() == old(self).emitted().push(Emitted::Complete),
            r is Error,
            r->Error_event@ == "complete"@,
            r->Error_oid@ == old(self).spec_oid(),
            r->Error_error.code == 1,
            r->Error_error.message@ == "Unable to create object in remote store"@,
    {
        self.finished = true;
        let e = ProtocolError::new(1, String::from_str("Unable to create object in remote store"));
        TransferResponse::new(self.oid.clone(), Err(e))
    }
    /// Handles one read of the upload's local file: a read of `n > 0` bytes
    /// is counted and reported, a read of nothing ends the upload.
    pub fn on_read(&mut self, n: usize) -> (r: Outbound)
        requires
            old(self).wf(),
            !old(self).spec_finished(),
            old(self).spec_bytes_so_far() + n <= usize::MAX,
        ensures
            final(self).wf(),
            final(self).spec_oid() == old(self).spec_oid(),
            n == 0 ==> final(self).spec_finished() && final(self).spec_chunks() == old(
                self,
            ).spec_chunks() && final(self).emitted() == old(self).emitted().push(Emitted::Complete)
                && r is Complete && r->Complete_0 is Successful
                && r->Complete_0->Successful_event@ == "complete"@
                && r->Complete_0->Successful_oid@ == old(self).spec_oid()
                && r->Complete_0->Successful_path is None,
            n > 0 ==> !final(self).spec_finished() && final(self).spec_chunks() == old(
                self,
            ).spec_chunks().push(n as nat) && final(self).spec_bytes_so_far() == old(
                self,
            ).spec_bytes_so_far() + n && final(self).emitted() == old(self).emitted().push(
                Emitted::Progress { so_far: final(self).spec_bytes_so_far(), since_last: n as nat },
            ) && r is Progress && r->Progress_0.event@ == "progress"@ && r->Progress_0.oid@ == old(
                self,
            ).spec_oid() && r->Progress_0.bytes_so_far as nat == final(self).spec_bytes_so_far()
                && r->Progress_0.bytes_since_last == n,
    {
        if n == 0 {
            Outbound::Complete(self.finish_upload())
        } else {
            Outbound::Progress(self.on_chunk(n))
        }
    }
}

} // verus!
