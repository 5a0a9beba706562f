//! The service's state, modelled: the metadata rows and the stored byte
//! payloads, keyed by identifier. `upload` performs every decision of the
//! ingestion pipeline on this model and `csv` every decision of the
//! retrieval pipeline; the surrounding binary mirrors each accepted step
//! onto the real database and directory.

use vstd::prelude::*;
use crate::filename::{is_csv_name, is_csv_filename};
use crate::ids::{stored_path, is_uuid_text, fresh_id, make_stored_path};
use crate::models::{File, FileModel, NewFile};
use crate::response::{
    Response, ResponseModel, csv_content_type, bad_extension_response, success_response,
    not_found_response, insert_failed_response, csv_file_response, make_bad_extension_response,
    make_success_response, make_not_found_response, make_insert_failed_response,
    make_csv_file_response,
};

verus! {

/// One stored upload: its metadata row and the bytes on disk.
pub struct StoredFile {
    pub row: File,
    pub bytes: Vec<u8>,
}

/// The mathematical shape of a stored upload.
#[verifier::ext_equal]
pub struct StoredFileModel {
    pub row: FileModel,
    pub bytes: Seq<u8>,
}

impl View for StoredFile {
    type V = StoredFileModel;

    open spec fn view(&self) -> StoredFileModel {
        StoredFileModel { row: self.row@, bytes: self.bytes@ }
    }
}

/// The mathematical shape of the whole store.
#[verifier::ext_equal]
pub struct HubModel {
    pub upload_dir: Seq<u8>,
    pub files: Seq<StoredFileModel>,
}

/// Some row carries this id.
pub open spec fn spec_has_id(files: Seq<StoredFileModel>, id: Seq<u8>) -> bool {
    exists|i: int| 0 <= i < files.len() && #[trigger] files[i].row.id == id
}

/// No two rows carry the same id.
pub open spec fn unique_ids(files: Seq<StoredFileModel>) -> bool {
    forall|i: int, j: int|
        0 <= i < j < files.len() ==> #[trigger] files[i].row.id != #[trigger] files[j].row.id
}

/// How many rows carry this id.
pub open spec fn count_id(files: Seq<StoredFileModel>, id: Seq<u8>) -> nat
    decreases files.len(),
{
    if files.len() == 0 {
        0
    } else {
        count_id(files.drop_last(), id) + (if files.last().row.id == id {
            1nat
        } else {
            0nat
        })
    }
}

/// What holds of every stored upload: the recorded size is the byte length
/// of the stored payload, the content type is `text/csv`, the path is
/// derived from the upload directory and the id alone, and the original
/// name passed the extension check.
pub open spec fn stored_wf(dir: Seq<u8>, f: StoredFileModel) -> bool {
    &&& f.row.size == f.bytes.len()
    &&& f.row.content_type == csv_content_type()
    &&& f.row.file_path == stored_path(dir, f.row.id)
    &&& is_csv_name(f.row.original_name)
}

/// The stored upload that an accepted request creates.
pub open spec fn new_stored(
    dir: Seq<u8>,
    id: Seq<u8>,
    name: Seq<u8>,
    body: Seq<u8>,
    now: int,
) -> StoredFileModel {
    StoredFileModel {
        row: FileModel {
            id: id,
            original_name: name,
            file_path: stored_path(dir, id),
            content_type: csv_content_type(),
            size: body.len() as int,
            created_at: now,
            updated_at: now,
        },
        bytes: body,
    }
}

/// The first row carrying this id, scanning front to back.
pub open spec fn spec_lookup(files: Seq<StoredFileModel>, id: Seq<u8>) -> Option<StoredFileModel>
    decreases files.len(),
{
    if files.len() == 0 {
        None
    } else if files[0].row.id == id {
        Some(files[0])
    } else {
        spec_lookup(files.drop_first(), id)
    }
}

/// What retrieval answers: the stored bytes under the original name when a
/// row matches, the 404 response when none does.
pub open spec fn spec_retrieve(files: Seq<StoredFileModel>, id: Seq<u8>) -> ResponseModel {
    match spec_lookup(files, id) {
        Some(f) => csv_file_response(f.row.original_name, f.bytes),
        None => not_found_response(),
    }
}

/// Scanning may start past any prefix free of the id.
pub proof fn lemma_lookup_skip(files: Seq<StoredFileModel>, id: Seq<u8>, i: int)
    requires
        0 <= i <= files.len(),
        forall|j: int| 0 <= j < i ==> #[trigger] files[j].row.id != id,
    ensures
        spec_lookup(files, id) == spec_lookup(files.skip(i), id),
    decreases i,
{
    if i > 0 {
        lemma_lookup_skip(files, id, i - 1);
        assert(files.skip(i - 1).len() == files.len() - (i - 1));
        assert(files.skip(i - 1)[0] == files[i - 1]);
        assert(files[i - 1].row.id != id);
        assert(files.skip(i - 1).drop_first() =~= files.skip(i));
        assert(spec_lookup(files.skip(i - 1), id) == spec_lookup(files.skip(i), id));
    } else {
        assert(files.skip(0) =~= files);
    }
}

/// A row is found exactly when some row carries the id, and what is found
/// carries it.
pub proof fn lemma_lookup_has(files: Seq<StoredFileModel>, id: Seq<u8>)
    ensures
        (spec_lookup(files, id) is Some) <==> spec_has_id(files, id),
        spec_lookup(files, id) matches Some(f) ==> f.row.id == id,
    decreases files.len(),
{
    if files.len() > 0 && files[0].row.id != id {
        lemma_lookup_has(files.drop_first(), id);
        if spec_has_id(files, id) {
            let i = choose|i: int| 0 <= i < files.len() && #[trigger] files[i].row.id == id;
            assert(files.drop_first()[i - 1].row.id == id);
        }
        if spec_has_id(files.drop_first(), id) {
            let i = choose|i: int|
                0 <= i < files.drop_first().len() && #[trigger] files.drop_first()[i].row.id == id;
            assert(files[i + 1].row.id == id);
        }
    }
}

/// Pushing a row with a fresh id makes it the one that id finds.
pub proof fn lemma_lookup_push_same(files: Seq<StoredFileModel>, f: StoredFileModel)
    requires
        !spec_has_id(files, f.row.id),
    ensures
        spec_lookup(files.push(f), f.row.id) == Some(f),
    decreases files.len(),
{
    if files.len() == 0 {
        assert(files.push(f)[0] == f);
    } else {
        assert(files[0].row.id != f.row.id);
        if spec_has_id(files.drop_first(), f.row.id) {
            let i = choose|i: int|
                0 <= i < files.drop_first().len() && #[trigger] files.drop_first()[i].row.id
                    == f.row.id;
            assert(files[i + 1].row.id == f.row.id);
        }
        lemma_lookup_push_same(files.drop_first(), f);
        assert(files.push(f).drop_first() =~= files.drop_first().push(f));
    }
}

/// Pushing a row leaves every other id's lookup unchanged.
pub proof fn lemma_lookup_push_other(files: Seq<StoredFileModel>, f: StoredFileModel, id: Seq<u8>)
    requires
        id != f.row.id,
    ensures
        spec_lookup(files.push(f), id) == spec_lookup(files, id),
    decreases files.len(),
{
    if files.len() == 0 {
        assert(files.push(f).len() == 1);
        assert(files.push(f)[0] == f);
        assert(files.push(f).drop_first() =~= Seq::<StoredFileModel>::empty());
        assert(spec_lookup(files.push(f).drop_first(), id) is None);
        assert(files.push(f)[0].row.id != id);
        assert(spec_lookup(files.push(f), id) is None);
        assert(spec_lookup(files, id) is None);
    } else {
        lemma_lookup_push_other(files.drop_first(), f, id);
        assert(files.push(f)[0] == files[0]);
        assert(files.push(f).drop_first() =~= files.drop_first().push(f));
    }
}

/// An id nothing carries is counted zero times.
pub proof fn lemma_count_absent(files: Seq<StoredFileModel>, id: Seq<u8>)
    requires
        !spec_has_id(files, id),
    ensures
        count_id(files, id) == 0,
    decreases files.len(),
{
    if files.len() > 0 {
        assert(files.last().row.id != id);
        if spec_has_id(files.drop_last(), id) {
            let i = choose|i: int|
                0 <= i < files.drop_last().len() && #[trigger] files.drop_last()[i].row.id == id;
            assert(files[i].row.id == id);
        }
        lemma_count_absent(files.drop_last(), id);
    }
}

/// Compares two byte strings.
pub fn bytes_eq(a: &Vec<u8>, b: &Vec<u8>) -> (r: bool)
    ensures
        r == (a@ == b@),
{
    if a.len() != b.len() {
        return false;
    }
    let mut i: usize = 0;
    while i < a.len()
        invariant
            i <= a@.len(),
            a@.len() == b@.len(),
            forall|j: int| 0 <= j < i ==> a@[j] == b@[j],
        decreases a@.len() - i,
    {
        if a[i] != b[i] {
            return false;
        }
        i = i + 1;
    }
    proof {
        assert(a@ =~= b@);
    }
    true
}

/// The store: the upload directory it owns and the uploads recorded so far.
pub struct Hub {
    pub upload_dir: Vec<u8>,
    pub files: Vec<StoredFile>,
}

impl View for Hub {
    type V = HubModel;

    open spec fn view(&self) -> HubModel {
        HubModel {
            upload_dir: self.upload_dir@,
            files: self.files@.map_values(|sf: StoredFile| sf@),
        }
    }
}

impl Hub {
    /// The store's invariant: ids are unique and every stored upload is
    /// well formed for the store's directory.
    pub open spec fn inv(self) -> bool {
        &&& unique_ids(self@.files)
        &&& forall|i: int|
            0 <= i < self@.files.len() ==> stored_wf(self@.upload_dir, #[trigger] self@.files[i])
    }

    /// An empty store over the given upload directory.
    pub fn new(upload_dir: Vec<u8>) -> (r: Hub)
        ensures
            r.inv(),
            r@.upload_dir == upload_dir@,
            r@.files.len() == 0,
    {
        let h = Hub { upload_dir, files: Vec::new() };
        proof {
            assert(h@.files =~= Seq::<StoredFileModel>::empty());
        }
        h
    }

    /// How many uploads are recorded.
    pub fn file_count(&self) -> (r: usize)
        ensures
            r == self@.files.len(),
    {
        self.files.len()
    }

    /// The position of the row carrying `id`, if any.
    pub fn lookup(&self, id: &Vec<u8>) -> (r: Option<usize>)
        ensures
            match r {
                Some(i) => i < self@.files.len() && self@.files[i as int].row.id == id@
                    && spec_lookup(self@.files, id@) == Some(self@.files[i as int]),
                None => spec_lookup(self@.files, id@) is None && !spec_has_id(self@.files, id@),
            },
    {
        let ghost files = self@.files;
        let n = self.files.len();
        let mut i: usize = 0;
        while i < n
            invariant
                i <= n,
                n == self.files@.len(),
                files == self@.files,
                files.len() == n,
                forall|j: int| 0 <= j < i ==> #[trigger] files[j].row.id != id@,
            decreases n - i,
        {
            if bytes_eq(&self.files[i].row.id, id) {
                proof {
                    assert(files[i as int] == self.files@[i as int]@);
                    lemma_lookup_skip(files, id@, i as int);
                    assert(files.skip(i as int)[0] == files[i as int]);
                }
                return Some(i);
            }
            proof {
                assert(files[i as int] == self.files@[i as int]@);
            }
            i = i + 1;
        }
        proof {
            lemma_lookup_skip(files, id@, n as int);
            assert(files.skip(n as int) =~= Seq::<StoredFileModel>::empty());
            lemma_lookup_has(files, id@);
        }
        None
    }

    /// Whether some row carries `id`.
    pub fn contains_id(&self, id: &Vec<u8>) -> (r: bool)
        ensures
            r == spec_has_id(self@.files, id@),
    {
        let found = self.lookup(id);
        proof {
            lemma_lookup_has(self@.files, id@);
        }
        found.is_some()
    }

    /// Retrieval: the stored bytes under the original name when a row
    /// carries `id`, the 404 response when none does.
    pub fn csv(&self, id: &Vec<u8>) -> (r: Response)
        ensures
            r@ == spec_retrieve(self@.files, id@),
            !spec_has_id(self@.files, id@) ==> r@ == not_found_response(),
    {
        proof {
            lemma_lookup_has(self@.files, id@);
        }
        match self.lookup(id) {
            Some(i) => {
                let name = self.files[i].row.original_name.clone();
                let bytes = self.files[i].bytes.clone();
                make_csv_file_response(&name, bytes)
            },
            None => make_not_found_response(),
        }
    }

    /// Ingestion under a caller-chosen fresh identifier: rejects a name
    /// that does not end in `.csv` untouched, and otherwise records exactly
    /// one new upload and answers with the success response.
    pub fn upload_with_id(
        &mut self,
        filename: &Vec<u8>,
        body: Vec<u8>,
        id: Vec<u8>,
        now: i64,
    ) -> (r: Response)
        requires
            old(self).inv(),
            !spec_has_id(old(self)@.files, id@),
            body@.len() <= i64::MAX,
        ensures
            final(self).inv(),
            final(self)@.upload_dir == old(self)@.upload_dir,
            !is_csv_name(filename@) ==> final(self)@ == old(self)@ && r@
                == bad_extension_response(),
            is_csv_name(filename@) ==> final(self)@.files == old(self)@.files.push(
                new_stored(old(self)@.upload_dir, id@, filename@, body@, now as int),
            ) && r@ == success_response(
                id@,
                body@.len(),
                stored_path(old(self)@.upload_dir, id@),
            ),
    {
        if !is_csv_filename(filename) {
            return make_bad_extension_response();
        }
        let ghost gid = id@;
        let path = make_stored_path(&self.upload_dir, &id);
        let size = body.len() as i64;
        let response = make_success_response(&id, size, &path);
        let row = NewFile::new(id, filename.clone(), path, size);
        let stored = StoredFile { row: row.inserted(now), bytes: body };
        proof {
            assert(stored@ =~= new_stored(self@.upload_dir, gid, filename@, body@, now as int));
        }
        self.files.push(stored);
        proof {
            let oldm = old(self)@;
            let nf = new_stored(oldm.upload_dir, gid, filename@, body@, now as int);
            assert(self@.files =~= oldm.files.push(nf));
            assert forall|i: int, j: int| 0 <= i < j < self@.files.len() implies self@.files[i].row.id
                != self@.files[j].row.id by {
                if j < oldm.files.len() {
                    assert(oldm.files[i].row.id != oldm.files[j].row.id);
                } else {
                    assert(!(oldm.files[i].row.id == gid));
                }
            }
            assert forall|i: int| 0 <= i < self@.files.len() implies stored_wf(
                self@.upload_dir,
                self@.files[i],
            ) by {
                if i < oldm.files.len() {
                    assert(stored_wf(oldm.upload_dir, oldm.files[i]));
                }
            }
        }
        response
    }

    /// Ingestion as a request sees it: the name is checked, a fresh random
    /// identifier is drawn, and the upload is recorded. Whatever identifier
    /// came back, either it was fresh and exactly one new upload exists
    /// under it, or it collided (or the body cannot be counted in 64 bits)
    /// and the store is untouched with an internal error answered.
    pub fn upload(&mut self, filename: &Vec<u8>, body: Vec<u8>, now: i64) -> (r: Response)
        requires
            old(self).inv(),
        ensures
            final(self).inv(),
            final(self)@.upload_dir == old(self)@.upload_dir,
            !is_csv_name(filename@) ==> final(self)@ == old(self)@ && r@
                == bad_extension_response(),
            is_csv_name(filename@) ==> ((exists|id: Seq<u8>|
                #[trigger] is_uuid_text(id) && !spec_has_id(old(self)@.files, id)
                    && final(self)@.files == old(self)@.files.push(
                    new_stored(old(self)@.upload_dir, id, filename@, body@, now as int),
                ) && r@ == success_response(
                    id,
                    body@.len(),
                    stored_path(old(self)@.upload_dir, id),
                )) || (final(self)@ == old(self)@ && r@ == insert_failed_response())),
    {
        if !is_csv_filename(filename) {
            return make_bad_extension_response();
        }
        if body.len() as u64 > i64::MAX as u64 {
            return make_insert_failed_response();
        }
        let id = fresh_id();
        if self.contains_id(&id) {
            return make_insert_failed_response();
        }
        let ghost gid = id@;
        let r = self.upload_with_id(filename, body, id, now);
        proof {
            assert(is_uuid_text(gid) && !spec_has_id(old(self)@.files, gid));
        }
        r
    }
}

} // verus!
