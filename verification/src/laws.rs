//! The service-level laws, proved over the store's model: the round trip
//! of an upload, the uniqueness of the recorded row, the 404 for an
//! unknown id, and the isolation of uploads under distinct identifiers.

use vstd::prelude::*;
use vstd::string::StringSliceAdditionalSpecFns;
use crate::filename::is_csv_name;
use crate::render::lemma_quoted_escaped_plain;
use crate::response::{
    csv_file_response, not_found_response, attachment_value, csv_content_type,
};
use crate::store::{
    StoredFileModel, spec_has_id, count_id, new_stored, spec_retrieve, lemma_lookup_has,
    lemma_lookup_push_same, lemma_lookup_push_other, lemma_count_absent,
};

verus! {

/// Round trip: after an accepted upload of `body` under a `.csv` name and
/// a fresh id, retrieving that id answers 200 with exactly the uploaded
/// bytes, the content type `text/csv`, and the original name in the
/// attachment header.
pub proof fn lemma_round_trip(
    dir: Seq<u8>,
    files: Seq<StoredFileModel>,
    id: Seq<u8>,
    name: Seq<u8>,
    body: Seq<u8>,
    now: int,
)
    requires
        is_csv_name(name),
        !spec_has_id(files, id),
    ensures
        ({
            let answer = spec_retrieve(files.push(new_stored(dir, id, name, body, now)), id);
            &&& answer == csv_file_response(name, body)
            &&& answer.status == 200
            &&& answer.body == body
            &&& answer.content_type == Some(csv_content_type())
            &&& answer.content_disposition == Some(attachment_value(name))
            &&& (forall|i: int| 0 <= i < name.len() ==> name[i] != 34 && name[i] != 92)
                ==> answer.content_disposition == Some(
                ("attachment; filename=\"").spec_bytes() + name + ("\"").spec_bytes(),
            )
        }),
{
    let f = new_stored(dir, id, name, body, now);
    lemma_lookup_push_same(files, f);
    if forall|i: int| 0 <= i < name.len() ==> name[i] != 34 && name[i] != 92 {
        lemma_quoted_escaped_plain(name);
    }
}

/// Exactly one row: after an accepted upload under a fresh id, the store
/// counts one row with that id, and its recorded size is the byte length
/// of the stored payload.
pub proof fn lemma_upload_unique_row(
    dir: Seq<u8>,
    files: Seq<StoredFileModel>,
    id: Seq<u8>,
    name: Seq<u8>,
    body: Seq<u8>,
    now: int,
)
    requires
        !spec_has_id(files, id),
    ensures
        count_id(files.push(new_stored(dir, id, name, body, now)), id) == 1,
        new_stored(dir, id, name, body, now).row.size == body.len(),
{
    let f = new_stored(dir, id, name, body, now);
    let after = files.push(f);
    lemma_count_absent(files, id);
    assert(after.drop_last() =~= files);
    assert(after.last() == f);
}

/// Unknown ids answer 404: retrieval of an id no row carries is the
/// not-found response.
pub proof fn lemma_unknown_id_not_found(files: Seq<StoredFileModel>, id: Seq<u8>)
    requires
        !spec_has_id(files, id),
    ensures
        spec_retrieve(files, id) == not_found_response(),
{
    lemma_lookup_has(files, id);
}

/// Isolation: two uploads under distinct fresh identifiers leave both
/// payloads retrievable, each under its own name and bytes, and add
/// exactly two rows.
pub proof fn lemma_distinct_uploads(
    dir: Seq<u8>,
    files: Seq<StoredFileModel>,
    id1: Seq<u8>,
    name1: Seq<u8>,
    body1: Seq<u8>,
    now1: int,
    id2: Seq<u8>,
    name2: Seq<u8>,
    body2: Seq<u8>,
    now2: int,
)
    requires
        is_csv_name(name1),
        is_csv_name(name2),
        id1 != id2,
        !spec_has_id(files, id1),
        !spec_has_id(files, id2),
    ensures
        ({
            let after = files.push(new_stored(dir, id1, name1, body1, now1)).push(
                new_stored(dir, id2, name2, body2, now2),
            );
            &&& after.len() == files.len() + 2
            &&& spec_retrieve(after, id1) == csv_file_response(name1, body1)
            &&& spec_retrieve(after, id2) == csv_file_response(name2, body2)
        }),
{
    let f1 = new_stored(dir, id1, name1, body1, now1);
    let f2 = new_stored(dir, id2, name2, body2, now2);
    lemma_lookup_push_same(files, f1);
    lemma_lookup_push_other(files.push(f1), f2, id1);
    if spec_has_id(files.push(f1), id2) {
        let i = choose|i: int|
            0 <= i < files.push(f1).len() && #[trigger] files.push(f1)[i].row.id == id2;
        if i < files.len() {
            assert(files[i].row.id == id2);
        } else {
            assert(files.push(f1)[i] == f1);
        }
    }
    lemma_lookup_push_same(files.push(f1), f2);
}

} // verus!
