//! Validation of client-supplied filenames: an upload is accepted exactly
//! when its filename ends in `.csv`, compared case-insensitively.

use vstd::prelude::*;

verus! {

/// ASCII lower-casing of a single byte; bytes outside `A..=Z` are unchanged.
pub open spec fn ascii_lower(b: u8) -> u8 {
    if 65 <= b && b <= 90 {
        (b + 32) as u8
    } else {
        b
    }
}

/// A filename is acceptable when it ends in `.csv`, case-insensitively:
/// its last four bytes are `.` and then `c`, `s`, `v` in either case.
pub open spec fn is_csv_name(s: Seq<u8>) -> bool {
    &&& s.len() >= 4
    &&& s[s.len() - 4] == 46  // '.'
    &&& ascii_lower(s[s.len() - 3]) == 99  // 'c'
    &&& ascii_lower(s[s.len() - 2]) == 115  // 's'
    &&& ascii_lower(s[s.len() - 1]) == 118  // 'v'
}

/// Lower-cases one byte as ASCII.
pub fn ascii_lower_byte(b: u8) -> (r: u8)
    ensures
        r == ascii_lower(b),
{
    if 65 <= b && b <= 90 {
        b + 32
    } else {
        b
    }
}

/// Decides whether a filename ends in `.csv`, case-insensitively.
pub fn is_csv_filename(name: &Vec<u8>) -> (r: bool)
    ensures
        r == is_csv_name(name@),
{
    let n = name.len();
    if n < 4 {
        return false;
    }
    name[n - 4] == 46 && ascii_lower_byte(name[n - 3]) == 99 && ascii_lower_byte(name[n - 2])
        == 115 && ascii_lower_byte(name[n - 1]) == 118
}

} // verus!
