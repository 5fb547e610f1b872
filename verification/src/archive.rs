use vstd::prelude::*;
use vstd::string::*;
use crate::bytes::copy_bytes;

verus! {

// A theme travels as a single archive file, written as `<name>.tar` in the
// working directory, consumed right after it is packed or unpacked and then
// deleted.  Packing and unpacking walk the filesystem; what the library owns
// is the archive's name and the checks that guard both directions.

/// Why packing or unpacking could not start.
#[derive(Clone, Copy, PartialEq, Eq, Structural, Debug)]
pub enum ArchiveError {
    /// The theme directory, or the archive file, does not exist.
    NotFound,
}

/// The name of the working archive file for a theme: the theme's name with
/// `.tar` appended.
pub fn archive_file_name(theme: &Vec<u8>) -> (r: Vec<u8>)
    ensures
        r@ == theme@ + ".tar".spec_bytes(),
{
    let mut r = copy_bytes(theme);
    let mut suffix = ".tar".as_bytes_vec();
    r.append(&mut suffix);
    r
}

/// Packing is owed exactly when the theme directory exists under the themes
/// root; otherwise it fails with `NotFound` and writes nothing.
pub fn classify_pack(theme_dir_exists: bool) -> (r: Result<(), ArchiveError>)
    ensures
        theme_dir_exists ==> r == Result::<(), ArchiveError>::Ok(()),
        !theme_dir_exists ==> r == Result::<(), ArchiveError>::Err(ArchiveError::NotFound),
{
    if theme_dir_exists {
        Result::Ok(())
    } else {
        Result::Err(ArchiveError::NotFound)
    }
}

/// Unpacking is owed exactly when the archive file exists; otherwise it
/// fails with `NotFound` and extracts nothing.
pub fn classify_unpack(archive_exists: bool) -> (r: Result<(), ArchiveError>)
    ensures
        archive_exists ==> r == Result::<(), ArchiveError>::Ok(()),
        !archive_exists ==> r == Result::<(), ArchiveError>::Err(ArchiveError::NotFound),
{
    if archive_exists {
        Result::Ok(())
    } else {
        Result::Err(ArchiveError::NotFound)
    }
}

} // verus!
