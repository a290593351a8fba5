//! Metadata snapshots and the decision that turns a raw metadata probe into
//! a snapshot or a time error.

use crate::errors::StoreError;
use vstd::prelude::*;

verus! {

/// The observable state of a filesystem path at one instant, constructed
/// fresh on each query and never persisted.
///
/// Absence is a valid snapshot value, not an error: a path that does not
/// exist (or cannot be inspected at all) is reported with both numeric
/// fields zeroed. Callers detect out-of-band modification by retaining a
/// snapshot when they load a file and comparing `modified_time` and `size`
/// against a fresh snapshot before they write.
#[derive(Clone, Copy, PartialEq, Eq, Structural, Debug)]
pub struct FileMetadata {
    /// Seconds since the Unix epoch at which the file was last modified.
    pub modified_time: u64,
    /// Size of the file in bytes.
    pub size: u64,
    /// Whether the path currently exists.
    pub exists: bool,
}

impl FileMetadata {
    /// A snapshot of a missing path carries zeroed fields.
    pub open spec fn wf(self) -> bool {
        !self.exists ==> self.modified_time == 0 && self.size == 0
    }

    /// The snapshot reported for a path that does not exist or cannot be
    /// inspected at all.
    pub open spec fn spec_missing() -> FileMetadata {
        FileMetadata { modified_time: 0, size: 0, exists: false }
    }

    /// Builds the snapshot for a path that does not exist.
    pub fn missing() -> (r: FileMetadata)
        ensures
            r == FileMetadata::spec_missing(),
            r.wf(),
    {
        FileMetadata { modified_time: 0, size: 0, exists: false }
    }
}

/// What one raw metadata query against a real filesystem observed. The
/// caller that performs the query reports it here as plain values.
pub enum StatProbe {
    /// The path could not be inspected at all, including because it does not
    /// exist. The two cases are deliberately not distinguished.
    Missing,
    /// The path exists with `size` bytes; `modified` carries its
    /// modification time in seconds since the Unix epoch, or the description
    /// of why that time could not be obtained or represented.
    Found { size: u64, modified: Result<u64, String> },
}

/// Turns a raw metadata probe into a snapshot.
///
/// A path that cannot be inspected yields the zeroed absent snapshot rather
/// than an error, so for the common "file does not exist yet" case this
/// decision never fails; the one error path is a path that exists but whose
/// modification time is invalid, which yields `TimeError`.
pub fn metadata_from_probe(probe: StatProbe) -> (r: Result<FileMetadata, StoreError>)
    ensures
        probe matches StatProbe::Missing ==> r == Ok::<FileMetadata, StoreError>(
            FileMetadata::spec_missing(),
        ),
        probe matches StatProbe::Found { size, modified } ==> match modified {
            Ok(t) => r == Ok::<FileMetadata, StoreError>(
                (FileMetadata { modified_time: t, size, exists: true }),
            ),
            Err(cause) => r matches Err(StoreError::TimeError { cause: c }) && c@ == cause@,
        },
        r matches Ok(m) ==> m.wf(),
{
    match probe {
        StatProbe::Missing => Ok(FileMetadata::missing()),
        StatProbe::Found { size, modified } => match modified {
            Ok(t) => Ok(FileMetadata { modified_time: t, size, exists: true }),
            Err(cause) => Err(StoreError::TimeError { cause }),
        },
    }
}

} // verus!
