//! The upload pipeline.
//!
//! A batch is the list of files picked in the host's file picker. Files
//! are handled one at a time, in list order: the host reads the file's
//! bytes and reports the outcome; on a successful read the pipeline
//! builds the store request (content-addressed key, declared MIME type,
//! identity encoding, and a digest of the content) and hands it back for
//! submission; the host submits it and reports that outcome too. A file
//! whose read or submission fails is recorded as a per-file failure and
//! never aborts the rest of the batch. The keys of the successful
//! submissions come out in file-list order.

use vstd::prelude::*;
use vstd::string::StringExecFns;

verus! {

/// The SHA-256 digest of a byte sequence. The digest is sha2's; it
/// depends on the bytes alone.
pub uninterp spec fn sha256_of(data: Seq<u8>) -> Seq<u8>;

/// Relies on sha2::Sha256::digest: a 32-byte digest that is a function
/// of the input bytes alone.
#[verifier::external_body]
fn sha256_digest(data: &Vec<u8>) -> (r: Vec<u8>)
    ensures
        r@ == sha256_of(data@),
        r@.len() == 32,
{
    <sha2::Sha256 as sha2::Digest>::digest(data.as_slice()).to_vec()
}

/// What the host knows of a picked file before reading it: its name and
/// its declared MIME type (empty when the host does not know one).
pub struct FileMeta {
    pub name: String,
    pub mime: String,
}

/// Mathematical model of a picked file.
#[verifier::ext_equal]
pub ghost struct FileInfo {
    pub name: Seq<char>,
    pub mime: Seq<char>,
}

impl View for FileMeta {
    type V = FileInfo;

    open spec fn view(&self) -> FileInfo {
        FileInfo { name: self.name@, mime: self.mime@ }
    }
}

impl DeepView for FileMeta {
    type V = FileInfo;

    open spec fn deep_view(&self) -> FileInfo {
        self@
    }
}

/// A store request, consumed exactly once by the storage endpoint.
pub struct StoreArg {
    pub key: String,
    pub content_type: String,
    pub content_encoding: String,
    pub content: Vec<u8>,
    pub sha256: Option<Vec<u8>>,
}

/// Mathematical model of a store request.
#[verifier::ext_equal]
pub ghost struct StoreArgModel {
    pub key: Seq<char>,
    pub content_type: Seq<char>,
    pub content_encoding: Seq<char>,
    pub content: Seq<u8>,
    pub sha256: Option<Seq<u8>>,
}

impl View for StoreArg {
    type V = StoreArgModel;

    open spec fn view(&self) -> StoreArgModel {
        StoreArgModel {
            key: self.key@,
            content_type: self.content_type@,
            content_encoding: self.content_encoding@,
            content: self.content@,
            sha256: self.sha256.deep_view(),
        }
    }
}

/// A per-file failure: the file's name and what went wrong.
pub struct UploadFailure {
    pub file_name: String,
    pub detail: String,
}

/// Mathematical model of a per-file failure.
#[verifier::ext_equal]
pub ghost struct FailureModel {
    pub file_name: Seq<char>,
    pub detail: Seq<char>,
}

impl View for UploadFailure {
    type V = FailureModel;

    open spec fn view(&self) -> FailureModel {
        FailureModel { file_name: self.file_name@, detail: self.detail@ }
    }
}

impl DeepView for UploadFailure {
    type V = FailureModel;

    open spec fn deep_view(&self) -> FailureModel {
        self@
    }
}

/// The asset key a file is stored under: the file's name behind a fixed
/// namespace prefix, so unrelated assets cannot collide with it.
pub open spec fn spec_asset_key(name: Seq<char>) -> Seq<char> {
    "/file-"@ + name
}

/// The store request built for one file: the namespaced key, the file's
/// declared MIME type, identity (uncompressed) encoding, the content
/// itself, and its digest.
pub open spec fn spec_store_arg(name: Seq<char>, mime: Seq<char>, content: Seq<u8>) ->
    StoreArgModel {
    StoreArgModel {
        key: spec_asset_key(name),
        content_type: mime,
        content_encoding: "identity"@,
        content: content,
        sha256: Some(sha256_of(content)),
    }
}

/// Builds the store request for one file's content.
pub fn build_store_arg(name: &str, mime: &str, content: Vec<u8>) -> (r: StoreArg)
    ensures
        r@ =~~= spec_store_arg(name@, mime@, content@),
        r.sha256 matches Some(h) && h@.len() == 32,
{
    let digest = sha256_digest(&content);
    StoreArg {
        key: String::from_str("/file-").concat(name),
        content_type: mime.to_owned(),
        content_encoding: String::from_str("identity"),
        content,
        sha256: Some(digest),
    }
}

/// Mathematical model of an upload batch in progress.
#[verifier::ext_equal]
pub ghost struct BatchModel {
    /// The picked files, in picker order.
    pub files: Seq<FileInfo>,
    /// The position of the first file not yet finished.
    pub next: int,
    /// The request built for the file at `next`, awaiting submission.
    pub pending: Option<StoreArgModel>,
    /// Keys of the successful submissions, in file order.
    pub keys: Seq<Seq<char>>,
    /// The per-file failures recorded so far, in file order.
    pub failures: Seq<FailureModel>,
}

/// A batch starts at the first file with nothing pending and no results.
pub open spec fn spec_batch_init(files: Seq<FileInfo>) -> BatchModel {
    BatchModel { files, next: 0, pending: None, keys: seq![], failures: seq![] }
}

/// A batch never leaves its file list, and a pending request is always
/// the one built for the current file.
pub open spec fn batch_wf(m: BatchModel) -> bool {
    &&& 0 <= m.next <= m.files.len()
    &&& m.pending is Some ==> m.next < m.files.len()
    &&& (m.pending matches Some(a) ==> a.key == spec_asset_key(m.files[m.next].name))
}

/// All files handled and nothing awaiting submission.
pub open spec fn spec_batch_done(m: BatchModel) -> bool {
    m.next == m.files.len() && m.pending is None
}

/// The batch after the host reported the current file's read: a
/// successful read leaves its store request pending; a failed read
/// records the failure and moves on.
pub open spec fn spec_step_read(m: BatchModel, outcome: Result<Seq<u8>, Seq<char>>) ->
    BatchModel {
    match outcome {
        Ok(content) => BatchModel {
            pending: Some(spec_store_arg(m.files[m.next].name, m.files[m.next].mime, content)),
            ..m
        },
        Err(detail) => BatchModel {
            failures: m.failures.push(FailureModel { file_name: m.files[m.next].name, detail }),
            next: m.next + 1,
            ..m
        },
    }
}

/// The batch after the host reported the pending submission: success
/// records the request's key, failure records a per-file failure;
/// either way the batch moves to the next file.
pub open spec fn spec_step_store(m: BatchModel, outcome: Result<(), Seq<char>>) -> BatchModel {
    match outcome {
        Ok(_) => BatchModel {
            keys: m.keys.push(m.pending->0.key),
            pending: None,
            next: m.next + 1,
            ..m
        },
        Err(detail) => BatchModel {
            failures: m.failures.push(FailureModel { file_name: m.files[m.next].name, detail }),
            pending: None,
            next: m.next + 1,
            ..m
        },
    }
}

/// The read outcome the host reported, as a mathematical value.
pub open spec fn read_model(outcome: Result<Vec<u8>, String>) -> Result<Seq<u8>, Seq<char>> {
    match outcome {
        Ok(c) => Ok(c@),
        Err(e) => Err(e@),
    }
}

/// The submission outcome the host reported, as a mathematical value.
pub open spec fn store_model(outcome: Result<(), String>) -> Result<(), Seq<char>> {
    match outcome {
        Ok(_) => Ok(()),
        Err(e) => Err(e@),
    }
}

/// An upload batch in progress.
pub struct UploadBatch {
    files: Vec<FileMeta>,
    next: usize,
    pending: Option<StoreArg>,
    keys: Vec<String>,
    failures: Vec<UploadFailure>,
}

impl View for UploadBatch {
    type V = BatchModel;

    closed spec fn view(&self) -> BatchModel {
        BatchModel {
            files: self.files.deep_view(),
            next: self.next as int,
            pending: match self.pending {
                Some(a) => Some(a@),
                None => None,
            },
            keys: self.keys.deep_view(),
            failures: self.failures.deep_view(),
        }
    }
}

impl UploadBatch {
    /// The batch's structural invariant.
    pub open spec fn wf(&self) -> bool {
        batch_wf(self@)
    }

    /// Starts a batch over the picked files, in picker order.
    pub fn new(files: Vec<FileMeta>) -> (b: UploadBatch)
        ensures
            b@ =~~= spec_batch_init(files.deep_view()),
            b.wf(),
    {
        UploadBatch {
            files,
            next: 0,
            pending: None,
            keys: Vec::new(),
            failures: Vec::new(),
        }
    }

    /// Whether every file has been handled; a batch over zero files is
    /// done from the start.
    pub fn done(&self) -> (r: bool)
        ensures
            r == spec_batch_done(self@),
    {
        self.next == self.files.len() && self.pending.is_none()
    }

    /// The position of the first file not yet finished.
    pub fn next_index(&self) -> (r: usize)
        ensures
            r == self@.next,
    {
        self.next
    }

    /// The file the host should read next, or nothing when every file
    /// has been reached.
    pub fn next_file(&self) -> (r: Option<&FileMeta>)
        ensures
            match r {
                Some(f) => self@.next < self@.files.len() && f@ =~= self@.files[self@.next],
                None => self@.next >= self@.files.len(),
            },
    {
        if self.next < self.files.len() {
            Some(&self.files[self.next])
        } else {
            None
        }
    }

    /// The request awaiting submission, if one is pending.
    pub fn pending_request(&self) -> (r: Option<&StoreArg>)
        ensures
            match r {
                Some(a) => self@.pending == Some(a@),
                None => self@.pending is None,
            },
    {
        self.pending.as_ref()
    }

    /// Applies the outcome of reading the current file. A successful
    /// read leaves the file's store request pending; a failed read
    /// records the failure and continues with the next file.
    pub fn file_read(&mut self, outcome: Result<Vec<u8>, String>)
        requires
            old(self).wf(),
            old(self)@.next < old(self)@.files.len(),
            old(self)@.pending is None,
        ensures
            final(self)@ =~~= spec_step_read(old(self)@, read_model(outcome)),
            final(self).wf(),
    {
        match outcome {
            Ok(content) => {
                let arg = build_store_arg(
                    self.files[self.next].name.as_str(),
                    self.files[self.next].mime.as_str(),
                    content,
                );
                self.pending = Some(arg);
            },
            Err(detail) => {
                let file_name = self.files[self.next].name.clone();
                self.failures.push(UploadFailure { file_name, detail });
                let n = self.files.len();
                proof {
                    assert(self.files.deep_view().len() == n as int);
                }
                self.next = self.next + 1;
            },
        }
    }

    /// Applies the outcome of submitting the pending request. Success
    /// records the request's key; failure records a per-file failure;
    /// either way the batch continues with the next file.
    pub fn store_result(&mut self, outcome: Result<(), String>)
        requires
            old(self).wf(),
            old(self)@.pending is Some,
        ensures
            final(self)@ =~~= spec_step_store(old(self)@, store_model(outcome)),
            final(self).wf(),
    {
        let pending = self.pending.take();
        match pending {
            Some(arg) => {
                match outcome {
                    Ok(_) => {
                        self.keys.push(arg.key);
                    },
                    Err(detail) => {
                        let file_name = self.files[self.next].name.clone();
                        self.failures.push(UploadFailure { file_name, detail });
                    },
                }
            },
            None => {},
        }
        let n = self.files.len();
        proof {
            assert(self.files.deep_view().len() == n as int);
        }
        self.next = self.next + 1;
    }

    /// Keys of the successful submissions so far, in file order.
    pub fn keys(&self) -> (r: &Vec<String>)
        ensures
            r.deep_view() == self@.keys,
    {
        &self.keys
    }

    /// The per-file failures recorded so far, in file order.
    pub fn failures(&self) -> (r: &Vec<UploadFailure>)
        ensures
            r.deep_view() == self@.failures,
    {
        &self.failures
    }

    /// Gives up the batch, handing out the successful keys and the
    /// per-file failures.
    pub fn into_results(self) -> (r: (Vec<String>, Vec<UploadFailure>))
        ensures
            r.0.deep_view() == self@.keys,
            r.1.deep_view() == self@.failures,
    {
        (self.keys, self.failures)
    }
}

/// One file's reported outcomes: the read and, when the read succeeded,
/// the submission.
#[verifier::ext_equal]
pub ghost struct FileOutcome {
    pub read: Result<Seq<u8>, Seq<char>>,
    pub store: Result<(), Seq<char>>,
}

/// The batch state reached from `m` by handling one file per outcome:
/// the file is read, and its request is submitted when the read
/// succeeded.
pub open spec fn spec_run_from(m: BatchModel, outcomes: Seq<FileOutcome>) -> BatchModel
    decreases outcomes.len(),
{
    if outcomes.len() == 0 {
        m
    } else {
        let m1 = spec_step_read(m, outcomes[0].read);
        let m2 = if outcomes[0].read is Ok {
            spec_step_store(m1, outcomes[0].store)
        } else {
            m1
        };
        spec_run_from(m2, outcomes.drop_first())
    }
}

/// A whole batch over `files`, driven by one outcome per file.
pub open spec fn spec_run(files: Seq<FileInfo>, outcomes: Seq<FileOutcome>) -> BatchModel {
    spec_run_from(spec_batch_init(files), outcomes)
}

/// The keys that the outcomes add when handling starts at file `i`: one
/// key per file whose read and submission both succeeded, in file order.
pub open spec fn spec_expected_keys(files: Seq<FileInfo>, i: int, outcomes: Seq<FileOutcome>)
    -> Seq<Seq<char>>
    decreases outcomes.len(),
{
    if outcomes.len() == 0 {
        seq![]
    } else {
        let rest = spec_expected_keys(files, i + 1, outcomes.drop_first());
        if outcomes[0].read is Ok && outcomes[0].store is Ok {
            seq![spec_asset_key(files[i].name)] + rest
        } else {
            rest
        }
    }
}

/// Running a batch forward appends exactly the expected keys, in order,
/// to those already recorded. In particular a failed file never stops
/// the files after it from being handled.
pub proof fn lemma_run_from_keys(m: BatchModel, outcomes: Seq<FileOutcome>)
    requires
        batch_wf(m),
        m.pending is None,
        m.next + outcomes.len() <= m.files.len(),
    ensures
        spec_run_from(m, outcomes).keys =~= m.keys + spec_expected_keys(
            m.files, m.next, outcomes),
    decreases outcomes.len(),
{
    if outcomes.len() == 0 {
        assert(m.keys + spec_expected_keys(m.files, m.next, outcomes) =~= m.keys);
    } else {
        let o = outcomes[0];
        let m1 = spec_step_read(m, o.read);
        let rest = spec_expected_keys(m.files, m.next + 1, outcomes.drop_first());
        if o.read is Ok {
            let m2 = spec_step_store(m1, o.store);
            assert(batch_wf(m2));
            lemma_run_from_keys(m2, outcomes.drop_first());
            if o.store is Ok {
                let key = spec_asset_key(m.files[m.next].name);
                assert(m2.keys =~= m.keys.push(key));
                assert(m.keys.push(key) + rest =~= m.keys + (seq![key] + rest));
            }
        } else {
            assert(batch_wf(m1));
            lemma_run_from_keys(m1, outcomes.drop_first());
        }
    }
}

/// Order preservation: when every file of the batch is read and stored
/// successfully, the resulting keys are exactly the files' asset keys,
/// one each, in file-list order.
pub proof fn lemma_order_preservation(files: Seq<FileInfo>, outcomes: Seq<FileOutcome>)
    requires
        outcomes.len() == files.len(),
        forall|j: int| 0 <= j < outcomes.len() ==> (#[trigger] outcomes[j]).read is Ok
            && outcomes[j].store is Ok,
    ensures
        spec_run(files, outcomes).keys =~= Seq::new(files.len(),
            |i: int| spec_asset_key(files[i].name)),
{
    lemma_run_from_keys(spec_batch_init(files), outcomes);
    lemma_expected_keys_all_success(files, 0, outcomes);
}

/// Under all-success outcomes, the expected keys starting at file `i`
/// are the asset keys of the files from `i` on, in order.
proof fn lemma_expected_keys_all_success(files: Seq<FileInfo>, i: int, outcomes: Seq<FileOutcome>)
    requires
        0 <= i,
        i + outcomes.len() <= files.len(),
        forall|j: int| 0 <= j < outcomes.len() ==> (#[trigger] outcomes[j]).read is Ok
            && outcomes[j].store is Ok,
    ensures
        spec_expected_keys(files, i, outcomes) =~= Seq::new(outcomes.len(),
            |j: int| spec_asset_key(files[i + j].name)),
    decreases outcomes.len(),
{
    if outcomes.len() > 0 {
        assert(forall|j: int| 0 <= j < outcomes.drop_first().len() ==>
            (#[trigger] outcomes.drop_first()[j]) == outcomes[j + 1]);
        lemma_expected_keys_all_success(files, i + 1, outcomes.drop_first());
    }
}

/// Under outcomes that all succeed except one failed read at position
/// `k`, the expected keys starting at file `i` are the asset keys of the
/// files from `i` on, with file `i + k`'s key left out.
proof fn lemma_expected_keys_one_failure(files: Seq<FileInfo>, i: int,
    outcomes: Seq<FileOutcome>, k: int)
    requires
        0 <= i,
        i + outcomes.len() <= files.len(),
        0 <= k < outcomes.len(),
        forall|j: int| 0 <= j < outcomes.len() && j != k ==> (#[trigger] outcomes[j]).read is Ok
            && outcomes[j].store is Ok,
        outcomes[k].read is Err,
    ensures
        spec_expected_keys(files, i, outcomes) =~= Seq::new(k as nat,
            |j: int| spec_asset_key(files[i + j].name)) + Seq::new(
            (outcomes.len() - 1 - k) as nat,
            |j: int| spec_asset_key(files[i + k + 1 + j].name)),
    decreases outcomes.len(),
{
    assert(forall|j: int| 0 <= j < outcomes.drop_first().len() ==>
        (#[trigger] outcomes.drop_first()[j]) == outcomes[j + 1]);
    if k == 0 {
        lemma_expected_keys_all_success(files, i + 1, outcomes.drop_first());
    } else {
        lemma_expected_keys_one_failure(files, i + 1, outcomes.drop_first(), k - 1);
    }
}

/// Batch partial failure: over `n` files where exactly file `k` fails to
/// read and every other file is read and stored successfully, the keys
/// that come out are all `n` asset keys except file `k`'s, still in file
/// order, so exactly `n - 1` of them. The files after `k` are handled
/// like any other.
pub proof fn lemma_batch_partial_failure(files: Seq<FileInfo>, outcomes: Seq<FileOutcome>, k: int)
    requires
        outcomes.len() == files.len(),
        0 <= k < files.len(),
        forall|j: int| 0 <= j < outcomes.len() && j != k ==> (#[trigger] outcomes[j]).read is Ok
            && outcomes[j].store is Ok,
        outcomes[k].read is Err,
    ensures
        ({
            let all = Seq::new(files.len(), |i: int| spec_asset_key(files[i].name));
            spec_run(files, outcomes).keys =~= all.subrange(0, k) + all.subrange(
                k + 1, files.len() as int)
        }),
        spec_run(files, outcomes).keys.len() == files.len() - 1,
{
    lemma_run_from_keys(spec_batch_init(files), outcomes);
    lemma_expected_keys_one_failure(files, 0, outcomes, k);
}

} // verus!
