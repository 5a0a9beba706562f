//! The ingestion pipeline's decisions, as a session that the surrounding
//! binary drives: validate the part's filename, fix the identifier and the
//! stored path, account every streamed chunk, and close with the metadata
//! row and the success response. The binary performs the writes between the
//! steps; the session guarantees that the recorded size is exactly the
//! number of bytes handed to it.

use vstd::prelude::*;
use crate::filename::{is_csv_name, is_csv_filename};
use crate::ids::{stored_path, make_stored_path, is_uuid_text, fresh_id};
use crate::models::NewFile;
use crate::response::{
    Response, bad_extension_response, success_response, make_bad_extension_response,
    make_success_response,
};
use crate::errors::ServiceError;

verus! {

/// One upload in progress: the identifier and path are fixed at the start,
/// the size grows with each chunk, and `received` carries the bytes seen so
/// far, for specification only.
pub struct UploadSession {
    pub upload_dir: Vec<u8>,
    pub id: Vec<u8>,
    pub original_name: Vec<u8>,
    pub file_path: Vec<u8>,
    pub size: i64,
    pub received: Ghost<Seq<u8>>,
}

impl UploadSession {
    /// A session is well formed when its path is derived from the upload
    /// directory and the identifier alone, its name was accepted, and its
    /// size counter equals the number of bytes received.
    pub open spec fn wf(self) -> bool {
        &&& self.file_path@ == stored_path(self.upload_dir@, self.id@)
        &&& is_csv_name(self.original_name@)
        &&& self.size == self.received@.len()
    }

    /// Opens a session for a part named `filename` under the given
    /// identifier. A name that does not end in `.csv` (case-insensitively)
    /// is rejected with the 400 response, and nothing is created.
    pub fn begin(upload_dir: &Vec<u8>, filename: &Vec<u8>, id: Vec<u8>) -> (r: Result<
        UploadSession,
        Response,
    >)
        ensures
            is_csv_name(filename@) ==> (r matches Ok(s) && s.wf() && s.upload_dir@ == upload_dir@
                && s.id@ == id@ && s.original_name@ == filename@ && s.file_path@ == stored_path(
                upload_dir@,
                id@,
            ) && s.size == 0 && s.received@ == Seq::<u8>::empty()),
            !is_csv_name(filename@) ==> (r matches Err(resp) && resp@
                == bad_extension_response()),
    {
        if !is_csv_filename(filename) {
            return Err(make_bad_extension_response());
        }
        let file_path = make_stored_path(upload_dir, &id);
        Ok(
            UploadSession {
                upload_dir: upload_dir.clone(),
                id,
                original_name: filename.clone(),
                file_path,
                size: 0,
                received: Ghost(Seq::empty()),
            },
        )
    }

    /// Opens a session under a freshly drawn identifier.
    pub fn begin_fresh(upload_dir: &Vec<u8>, filename: &Vec<u8>) -> (r: Result<
        UploadSession,
        Response,
    >)
        ensures
            is_csv_name(filename@) ==> (r matches Ok(s) && s.wf() && s.upload_dir@ == upload_dir@
                && is_uuid_text(s.id@) && s.original_name@ == filename@ && s.size == 0
                && s.received@ == Seq::<u8>::empty()),
            !is_csv_name(filename@) ==> (r matches Err(resp) && resp@
                == bad_extension_response()),
    {
        let id = fresh_id();
        UploadSession::begin(upload_dir, filename, id)
    }

    /// Accounts one chunk of the part's body. The counter is 64-bit; a
    /// body that would push it past `i64::MAX` is refused as a storage
    /// fault and the session is left as it was.
    pub fn note_chunk(&mut self, chunk: &Vec<u8>) -> (r: Result<(), ServiceError>)
        requires
            old(self).wf(),
        ensures
            final(self).wf(),
            final(self).upload_dir@ == old(self).upload_dir@,
            final(self).id@ == old(self).id@,
            final(self).original_name@ == old(self).original_name@,
            final(self).file_path@ == old(self).file_path@,
            old(self).size + chunk@.len() <= i64::MAX ==> r is Ok && final(self).size
                == old(self).size + chunk@.len() && final(self).received@ == old(self).received@
                + chunk@,
            old(self).size + chunk@.len() > i64::MAX ==> (r matches Err(e) && e
                == ServiceError::Storage && final(self).size == old(self).size
                && final(self).received@ == old(self).received@),
    {
        let len = chunk.len();
        if len as u64 <= (i64::MAX - self.size) as u64 {
            self.size = self.size + len as i64;
            self.received = Ghost(self.received@ + chunk@);
            Ok(())
        } else {
            Err(ServiceError::Storage)
        }
    }

    /// Closes the session once the part's stream has ended: the metadata
    /// row to insert, and the success response to send. The row's size is
    /// exactly the number of bytes received, its content type is
    /// `text/csv`, and its path is the stored path of the identifier.
    pub fn finish(self) -> (r: (NewFile, Response))
        requires
            self.wf(),
        ensures
            r.0.id@ == self.id@,
            r.0.original_name@ == self.original_name@,
            r.0.file_path@ == stored_path(self.upload_dir@, self.id@),
            r.0.content_type@ == crate::response::csv_content_type(),
            r.0.size == self.received@.len(),
            r.1@ == success_response(self.id@, self.received@.len(), self.file_path@),
    {
        let response = make_success_response(&self.id, self.size, &self.file_path);
        let row = NewFile::new(self.id, self.original_name, self.file_path, self.size);
        (row, response)
    }
}

} // verus!
