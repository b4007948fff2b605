//! Writing a manifest or a note file: note files are appended to, any other
//! file is replaced, and the write is reported with the content written.
use vstd::prelude::*;
use crate::text::{contains_spec, contains_str};

verus! {

/// How a file is opened for writing.
#[derive(Clone, Copy, Debug, PartialEq, Eq, Structural)]
pub enum WriteMode {
    /// Created when missing, the content added at its end.
    Append,
    /// Created when missing, emptied first.
    Truncate,
}

/// Note files (their path holds `note`) are appended to; any other file is replaced.
pub fn file_write_mode(file_path: &str) -> (r: WriteMode)
    ensures
        r == (if contains_spec(file_path@, "note"@) {
            WriteMode::Append
        } else {
            WriteMode::Truncate
        }),
{
    if contains_str(file_path, "note") {
        WriteMode::Append
    } else {
        WriteMode::Truncate
    }
}

/// The report of a successful write.
pub fn file_write_report(manifest_content: &str) -> (r: String)
    ensures
        r@ == "manifest has been successfully writen with content: "@ + manifest_content@,
{
    String::from_str("manifest has been successfully writen with content: ").concat(manifest_content)
}

} // verus!
