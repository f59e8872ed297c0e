//! File metadata as the platform's storage facility reports it.

use vstd::prelude::*;

verus! {

/// Metadata of one file held by the platform's storage facility: its name,
/// its size in bytes, and the UTC timestamp of its last modification.
#[derive(Clone, Debug, PartialEq, Eq)]
pub struct FileStat {
    filename: String,
    size: u64,
    last_modified: i64,
}

impl FileStat {
    /// The file's name.
    pub closed spec fn spec_filename(self) -> Seq<char> {
        self.filename@
    }

    /// The file's size in bytes.
    pub closed spec fn spec_size(self) -> u64 {
        self.size
    }

    /// The UTC timestamp of the file's last modification.
    pub closed spec fn spec_last_modified(self) -> i64 {
        self.last_modified
    }

    /// Builds the metadata record for one file.
    pub fn new(filename: String, size: u64, last_modified: i64) -> (r: Self)
        ensures
            r.spec_filename() == filename@,
            r.spec_size() == size,
            r.spec_last_modified() == last_modified,
    {
        FileStat { filename, size, last_modified }
    }

    /// The file's name.
    pub fn filename(&self) -> (r: &String)
        ensures
            r@ == self.spec_filename(),
    {
        &self.filename
    }

    /// The file's size in bytes.
    pub fn size(&self) -> (r: u64)
        ensures
            r == self.spec_size(),
    {
        self.size
    }

    /// UTC timestamp of the last modification.
    pub fn last_modified(&self) -> (r: i64)
        ensures
            r == self.spec_last_modified(),
    {
        self.last_modified
    }
}

} // verus!
