//! The user-editable record and the form around it.
//!
//! A record holds a car collection's metadata together with the asset
//! keys of its logo, images and documents. It is changed in exactly
//! three ways: a direct field edit, a successful upload attaching the
//! returned keys to the field that was selected, and an explicit removal
//! of a key. A failed upload never touches the record.

use vstd::prelude::*;
use vstd::string::StringExecFns;
use crate::upload::{FileInfo, FileOutcome, spec_run, spec_asset_key, lemma_order_preservation};

verus! {

/// Which record field an upload was selected for.
#[derive(Clone, Copy, PartialEq, Eq, Structural, Debug)]
pub enum UploadField {
    /// The single logo key; a new upload replaces it.
    Logo,
    /// The image keys; uploads append to them.
    Images,
    /// The document keys; uploads append to them.
    Documents,
}

/// The editable car-collection record.
pub struct CarCollection {
    pub id: u64,
    pub name: String,
    pub model: String,
    pub logo: String,
    pub images: Vec<String>,
    pub documents: Vec<String>,
    pub approved: bool,
}

/// Mathematical model of the record.
#[verifier::ext_equal]
pub ghost struct RecordModel {
    pub id: u64,
    pub name: Seq<char>,
    pub model: Seq<char>,
    pub logo: Seq<char>,
    pub images: Seq<Seq<char>>,
    pub documents: Seq<Seq<char>>,
    pub approved: bool,
}

impl View for CarCollection {
    type V = RecordModel;

    open spec fn view(&self) -> RecordModel {
        RecordModel {
            id: self.id,
            name: self.name@,
            model: self.model@,
            logo: self.logo@,
            images: self.images.deep_view(),
            documents: self.documents.deep_view(),
            approved: self.approved,
        }
    }
}

/// The record a form starts from: everything empty, nothing approved.
pub open spec fn spec_default_record() -> RecordModel {
    RecordModel {
        id: 0,
        name: Seq::<char>::empty(),
        model: Seq::<char>::empty(),
        logo: Seq::<char>::empty(),
        images: Seq::<Seq<char>>::empty(),
        documents: Seq::<Seq<char>>::empty(),
        approved: false,
    }
}

/// The record after a successful upload's keys are routed into a field:
/// the first key replaces the logo (none leaves it alone); image and
/// document keys are appended in the order given; nothing else changes.
pub open spec fn spec_attach_keys(m: RecordModel, field: UploadField, keys: Seq<Seq<char>>)
    -> RecordModel {
    match field {
        UploadField::Logo => if keys.len() == 0 {
            m
        } else {
            RecordModel { logo: keys[0], ..m }
        },
        UploadField::Images => RecordModel { images: m.images + keys, ..m },
        UploadField::Documents => RecordModel { documents: m.documents + keys, ..m },
    }
}

/// A key sequence with every occurrence of `key` removed.
pub open spec fn spec_remove_key(s: Seq<Seq<char>>, key: Seq<char>) -> Seq<Seq<char>> {
    s.filter(|x: Seq<char>| x != key)
}

/// Appends clones of every element of `src` to `dst`, in order.
fn append_all(dst: &mut Vec<String>, src: &Vec<String>)
    ensures
        final(dst).deep_view() =~= old(dst).deep_view() + src.deep_view(),
{
    let ghost dst0: Seq<Seq<char>> = dst.deep_view();
    let n = src.len();
    let mut i: usize = 0;
    while i < n
        invariant
            i <= n,
            n == src@.len(),
            dst.deep_view() =~= dst0 + src.deep_view().subrange(0, i as int),
        decreases n - i,
    {
        let ghost before: Seq<Seq<char>> = dst.deep_view();
        dst.push(src[i].clone());
        proof {
            assert forall|j: int| 0 <= j < dst@.len() implies
                dst.deep_view()[j] == before.push(src.deep_view()[i as int])[j] by {
                if j < before.len() {
                    assert(dst@[j] == dst@.drop_last()[j]);
                }
            }
            assert(dst.deep_view() =~= before.push(src.deep_view()[i as int]));
            assert(src.deep_view().subrange(0, i + 1) =~= src.deep_view().subrange(0, i as int)
                .push(src.deep_view()[i as int]));
        }
        i = i + 1;
    }
    proof {
        assert(src.deep_view().subrange(0, n as int) =~= src.deep_view());
    }
}

/// Rebuilds `v` without any occurrence of `key`, keeping the order of
/// what stays.
fn remove_all(v: &mut Vec<String>, key: &String)
    ensures
        final(v).deep_view() =~= spec_remove_key(old(v).deep_view(), key@),
{
    let n = v.len();
    let mut out: Vec<String> = Vec::new();
    let mut i: usize = 0;
    proof {
        assert(old(v).deep_view().subrange(0, 0) =~= Seq::<Seq<char>>::empty());
        assert(Seq::<Seq<char>>::empty().filter(|x: Seq<char>| x != key@)
            =~= Seq::<Seq<char>>::empty());
    }
    while i < n
        invariant
            i <= n,
            n == v@.len(),
            *v == *old(v),
            out.deep_view() =~= spec_remove_key(v.deep_view().subrange(0, i as int), key@),
        decreases n - i,
    {
        proof {
            assert(v.deep_view().subrange(0, i + 1) =~= v.deep_view().subrange(0, i as int)
                .push(v.deep_view()[i as int]));
            v.deep_view().subrange(0, i as int).lemma_filter_push(v.deep_view()[i as int],
                |x: Seq<char>| x != key@);
        }
        if !(v[i] == *key) {
            out.push(v[i].clone());
        }
        i = i + 1;
    }
    proof {
        assert(v.deep_view().subrange(0, n as int) =~= v.deep_view());
    }
    *v = out;
}

impl Default for CarCollection {
    /// The record a form starts from: everything empty, nothing
    /// approved.
    fn default() -> (r: CarCollection)
        ensures
            r@ =~~= spec_default_record(),
    {
        CarCollection {
            id: 0,
            name: String::new(),
            model: String::new(),
            logo: String::new(),
            images: Vec::new(),
            documents: Vec::new(),
            approved: false,
        }
    }
}

impl CarCollection {
    /// Routes the keys a successful upload returned into the selected
    /// field: the first key replaces the logo (no key leaves it alone);
    /// image and document keys are appended in the order given. No other
    /// field is touched.
    pub fn attach_keys(&mut self, field: UploadField, keys: &Vec<String>)
        ensures
            final(self)@ =~~= spec_attach_keys(old(self)@, field, keys.deep_view()),
    {
        match field {
            UploadField::Logo => {
                if keys.len() > 0 {
                    self.logo = keys[0].clone();
                }
            },
            UploadField::Images => {
                append_all(&mut self.images, keys);
            },
            UploadField::Documents => {
                append_all(&mut self.documents, keys);
            },
        }
    }

    /// Removes every occurrence of `key` from the image keys; nothing
    /// else changes.
    pub fn remove_image(&mut self, key: &String)
        ensures
            final(self)@ =~~= (RecordModel {
                images: spec_remove_key(old(self)@.images, key@),
                ..old(self)@
            }),
    {
        remove_all(&mut self.images, key);
    }

    /// Removes every occurrence of `key` from the document keys; nothing
    /// else changes.
    pub fn remove_document(&mut self, key: &String)
        ensures
            final(self)@ =~~= (RecordModel {
                documents: spec_remove_key(old(self)@.documents, key@),
                ..old(self)@
            }),
    {
        remove_all(&mut self.documents, key);
    }

    /// Clears the logo key; nothing else changes.
    pub fn clear_logo(&mut self)
        ensures
            final(self)@ =~~= (RecordModel { logo: Seq::<char>::empty(), ..old(self)@ }),
    {
        self.logo = String::new();
    }
}


/// The form around the record: the record itself, whether an upload is
/// in flight, and the message shown for the last failure.
pub struct FormState {
    pub collection: CarCollection,
    pub uploading: bool,
    pub error_message: String,
}

impl FormState {
    /// A fresh form over the default record.
    pub fn new() -> (r: FormState)
        ensures
            r.collection@ =~~= spec_default_record(),
            !r.uploading,
            r.error_message@ =~= Seq::<char>::empty(),
    {
        FormState {
            collection: CarCollection::default(),
            uploading: false,
            error_message: String::new(),
        }
    }

    /// A file selection was made: the form enters its uploading state
    /// and any earlier error is cleared. The record is untouched.
    pub fn begin_select(&mut self)
        ensures
            final(self).uploading,
            final(self).error_message@ =~= Seq::<char>::empty(),
            final(self).collection == old(self).collection,
    {
        self.error_message = String::new();
        self.uploading = true;
    }

    /// The upload batch came back: on success its keys are routed into
    /// the selected field and the message is left as it stands; on
    /// failure the record is untouched and the failure is shown. Either
    /// way the uploading state ends.
    pub fn finish_select(&mut self, field: UploadField, outcome: Result<Vec<String>, String>)
        ensures
            !final(self).uploading,
            outcome matches Ok(keys) ==> final(self).collection@ =~~= spec_attach_keys(
                old(self).collection@, field, keys.deep_view())
                && final(self).error_message == old(self).error_message,
            outcome matches Err(e) ==> final(self).collection == old(self).collection
                && final(self).error_message@ =~= "Upload failed: "@ + e@,
    {
        match outcome {
            Ok(keys) => {
                self.collection.attach_keys(field, &keys);
            },
            Err(e) => {
                self.error_message = String::from_str("Upload failed: ").concat(e.as_str());
            },
        }
        self.uploading = false;
    }

    /// No client was available for the batch: the whole selection fails
    /// at once with a single message, the record untouched, the
    /// uploading state ended.
    pub fn fail_no_client(&mut self)
        ensures
            !final(self).uploading,
            final(self).collection == old(self).collection,
            final(self).error_message@ =~= "Canisters not available. Please log in."@,
    {
        self.error_message = String::from_str("Canisters not available. Please log in.");
        self.uploading = false;
    }
}

/// Order preservation, end to end: when every file of a batch is read
/// and stored successfully, attaching the batch's keys to the image
/// field appends exactly the files' asset keys, in file-list order.
pub proof fn lemma_upload_appends_in_order(m: RecordModel, files: Seq<FileInfo>,
    outcomes: Seq<FileOutcome>)
    requires
        outcomes.len() == files.len(),
        forall|j: int| 0 <= j < outcomes.len() ==> (#[trigger] outcomes[j]).read is Ok
            && outcomes[j].store is Ok,
    ensures
        spec_attach_keys(m, UploadField::Images, spec_run(files, outcomes).keys).images
            =~= m.images + Seq::new(files.len(), |i: int| spec_asset_key(files[i].name)),
{
    lemma_order_preservation(files, outcomes);
}

} // verus!
