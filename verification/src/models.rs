//! The persisted metadata: the row inserted at upload time (`NewFile`) and
//! the row as read back (`File`, with the timestamps the store sets).
//! Timestamps are carried as plain integers (seconds since the epoch); the
//! surrounding binary converts from its clock type at the edge.

use vstd::prelude::*;
use crate::response::csv_content_type;

verus! {

/// A metadata row as read back from the `files` table.
pub struct File {
    pub id: Vec<u8>,
    pub original_name: Vec<u8>,
    pub file_path: Vec<u8>,
    pub content_type: Vec<u8>,
    pub size: i64,
    pub created_at: i64,
    pub updated_at: i64,
}

/// The mathematical shape of a `File` row.
pub struct FileModel {
    pub id: Seq<u8>,
    pub original_name: Seq<u8>,
    pub file_path: Seq<u8>,
    pub content_type: Seq<u8>,
    pub size: int,
    pub created_at: int,
    pub updated_at: int,
}

impl View for File {
    type V = FileModel;

    open spec fn view(&self) -> FileModel {
        FileModel {
            id: self.id@,
            original_name: self.original_name@,
            file_path: self.file_path@,
            content_type: self.content_type@,
            size: self.size as int,
            created_at: self.created_at as int,
            updated_at: self.updated_at as int,
        }
    }
}

/// A metadata row about to be inserted; the store fills the timestamps.
pub struct NewFile {
    pub id: Vec<u8>,
    pub original_name: Vec<u8>,
    pub file_path: Vec<u8>,
    pub content_type: Vec<u8>,
    pub size: i64,
}

impl NewFile {
    /// The row recorded for an upload: the given fields, and always the
    /// content type `text/csv`.
    pub fn new(id: Vec<u8>, original_name: Vec<u8>, file_path: Vec<u8>, size: i64) -> (r: NewFile)
        ensures
            r.id@ == id@,
            r.original_name@ == original_name@,
            r.file_path@ == file_path@,
            r.content_type@ == csv_content_type(),
            r.size == size,
    {
        NewFile {
            id,
            original_name,
            file_path,
            content_type: crate::response::make_csv_content_type(),
            size,
        }
    }

    /// The row as it becomes visible once inserted at time `now`: both
    /// timestamps are set to the insertion time.
    pub fn inserted(self, now: i64) -> (r: File)
        ensures
            r@.id == self.id@,
            r@.original_name == self.original_name@,
            r@.file_path == self.file_path@,
            r@.content_type == self.content_type@,
            r@.size == self.size as int,
            r@.created_at == now as int,
            r@.updated_at == now as int,
    {
        File {
            id: self.id,
            original_name: self.original_name,
            file_path: self.file_path,
            content_type: self.content_type,
            size: self.size,
            created_at: now,
            updated_at: now,
        }
    }
}

} // verus!
