//! The laws of the change-detection and backup-before-write protocol, proved
//! over the same spec functions that the store's operations are specified
//! with.

use crate::metadata::FileMetadata;
use crate::paths::backup_path_of;
use crate::paths::lemma_backup_path_ne;
use crate::store::byte_len;
use crate::store::spec_backup;
use crate::store::spec_exists;
use crate::store::spec_read;
use crate::store::spec_stat;
use crate::store::spec_write;
use crate::store::FileRecord;
use vstd::prelude::*;

verus! {

/// For every path that does not exist, the metadata snapshot is the zeroed
/// absent snapshot and the existence check is negative.
pub proof fn lemma_stat_missing(m: Map<Seq<char>, FileRecord>, p: Seq<char>)
    requires
        !m.contains_key(p),
    ensures
        spec_stat(m, p) == FileMetadata::spec_missing(),
        !spec_exists(m, p),
{
}

/// The metadata snapshot and the plain existence check never disagree, and
/// the snapshot always satisfies the absence invariant: a snapshot that
/// reports no file carries zeroed fields.
pub proof fn lemma_stat_exists_agree(m: Map<Seq<char>, FileRecord>, p: Seq<char>)
    ensures
        spec_stat(m, p).exists == spec_exists(m, p),
        spec_stat(m, p).wf(),
{
}

/// Why the snapshot protocol detects out-of-band writes: overwriting a file
/// at a moment other than its recorded modification time changes its
/// metadata snapshot, so a caller that retained the old snapshot sees the
/// mismatch before it writes.
pub proof fn lemma_stat_detects_change(
    m: Map<Seq<char>, FileRecord>,
    p: Seq<char>,
    c: Seq<char>,
    now: u64,
)
    requires
        m.contains_key(p),
        now != m[p].modified_time,
    ensures
        spec_stat(spec_write(m, p, c, now), p) != spec_stat(m, p),
{
}

/// Round trip: after a write of content `c` to path `p`, reading `p` yields
/// `c` back, whatever the filesystem held before.
pub proof fn lemma_write_then_read(
    m: Map<Seq<char>, FileRecord>,
    p: Seq<char>,
    c: Seq<char>,
    now: u64,
)
    ensures
        spec_read(spec_write(m, p, c, now), p) == Some(c),
{
}

/// A backup of a path that does not exist changes the filesystem not at all:
/// no file is created. (The operation's own contract adds that it returns
/// `NotFoundError` in exactly this case.)
pub proof fn lemma_backup_missing(m: Map<Seq<char>, FileRecord>, p: Seq<char>, now: u64)
    requires
        !m.contains_key(p),
    ensures
        spec_backup(m, p, now) == m,
{
}

/// A backup of an existing path puts the source's exact text at the derived
/// backup path and leaves the source itself untouched. (The operation's own
/// contract adds that it returns the derived backup path.)
pub proof fn lemma_backup_existing(m: Map<Seq<char>, FileRecord>, p: Seq<char>, now: u64)
    requires
        m.contains_key(p),
    ensures
        spec_read(spec_backup(m, p, now), backup_path_of(p)) == Some(m[p].content),
        spec_read(spec_backup(m, p, now), p) == spec_read(m, p),
{
    lemma_backup_path_ne(p);
}

/// Two successive backups of the same path leave exactly one file beyond
/// those already present, at the derived backup path: the paths of the
/// result are the original paths plus that one. The backup holds the text
/// the source had at the second call, so repeating a backup of an unchanged
/// source changes nothing further.
pub proof fn lemma_backup_twice(m: Map<Seq<char>, FileRecord>, p: Seq<char>, n1: u64, n2: u64)
    requires
        m.contains_key(p),
    ensures
        ({
            let m1 = spec_backup(m, p, n1);
            let m2 = spec_backup(m1, p, n2);
            &&& m2.dom() == m.dom().insert(backup_path_of(p))
            &&& spec_read(m2, backup_path_of(p)) == spec_read(m1, p)
            &&& spec_read(m1, p) == spec_read(m, p)
        }),
{
    lemma_backup_path_ne(p);
    let m1 = spec_backup(m, p, n1);
    let m2 = spec_backup(m1, p, n2);
    assert(m2.dom() =~= m.dom().insert(backup_path_of(p)));
}

/// A write followed immediately by a metadata query reports the file as
/// existing, stamped with the write's time, with a size equal to the byte
/// length of the written content.
pub proof fn lemma_write_then_stat(
    m: Map<Seq<char>, FileRecord>,
    p: Seq<char>,
    c: Seq<char>,
    now: u64,
)
    requires
        byte_len(c) <= usize::MAX,
    ensures
        spec_stat(spec_write(m, p, c, now), p) == (FileMetadata {
            modified_time: now,
            size: byte_len(c) as u64,
            exists: true,
        }),
        spec_stat(spec_write(m, p, c, now), p).size == byte_len(c),
{
}

} // verus!
