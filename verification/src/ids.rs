//! Identifier assignment: every upload receives a fresh random UUID in its
//! hyphenated, lowercase textual form, and the stored file's path is derived
//! from that identifier alone.

use vstd::prelude::*;
use vstd::string::StringSliceAdditionalSpecFns;

verus! {

/// An ASCII lowercase hexadecimal digit.
pub open spec fn is_hex_lower_byte(b: u8) -> bool {
    (48 <= b && b <= 57) || (97 <= b && b <= 102)
}

/// The textual form of a UUID: 36 bytes, hyphens at offsets 8, 13, 18 and
/// 23, lowercase hexadecimal digits everywhere else.
pub open spec fn is_uuid_text(s: Seq<u8>) -> bool {
    &&& s.len() == 36
    &&& s[8] == 45
    &&& s[13] == 45
    &&& s[18] == 45
    &&& s[23] == 45
    &&& forall|i: int|
        0 <= i < 36 && i != 8 && i != 13 && i != 18 && i != 23 ==> is_hex_lower_byte(
            #[trigger] s[i],
        )
}

/// Relies on `uuid::Uuid::new_v4` and the `Display` impl of `uuid::Uuid`:
/// a fresh random version-4 UUID, rendered hyphenated in lowercase
/// hexadecimal (36 bytes, hyphens at offsets 8, 13, 18 and 23). Nothing is
/// assumed about which identifier comes back, only about its shape.
#[verifier::external_body]
pub(crate) fn fresh_id() -> (r: Vec<u8>)
    ensures
        is_uuid_text(r@),
{
    uuid::Uuid::new_v4().to_string().into_bytes()
}

/// The path under which an upload is stored: `<dir>/<id>.csv`. The
/// client-supplied filename plays no part in it.
pub open spec fn stored_path(dir: Seq<u8>, id: Seq<u8>) -> Seq<u8> {
    dir + seq![47u8] + id + (".csv").spec_bytes()
}

/// Builds the stored path `<dir>/<id>.csv` for an upload.
pub fn make_stored_path(dir: &Vec<u8>, id: &Vec<u8>) -> (r: Vec<u8>)
    ensures
        r@ == stored_path(dir@, id@),
{
    let mut r: Vec<u8> = Vec::new();
    r.extend_from_slice(dir.as_slice());
    r.push(47);
    r.extend_from_slice(id.as_slice());
    r.extend_from_slice(".csv".as_bytes());
    proof {
        assert(r@ =~= stored_path(dir@, id@));
    }
    r
}

} // verus!
