//! The configuration-file store, verified against an explicit model of the
//! filesystem contents.
//!
//! [`FileSystem`] holds the files as a vector of entries with pairwise
//! distinct paths and is viewed abstractly as a finite map from path to
//! [`FileRecord`]. Each operation of the store is a function of that map and
//! of the arguments alone; its effect and its result are pinned down exactly
//! by the spec functions below, over which the laws of the protocol are then
//! stated and proved.

use crate::errors::StoreError;
use crate::metadata::FileMetadata;
use crate::paths::backup_path_of;
use vstd::prelude::*;

verus! {

/// The abstract state of one file: its text and its modification time in
/// seconds since the Unix epoch.
pub ghost struct FileRecord {
    pub content: Seq<char>,
    pub modified_time: u64,
}

/// One stored file.
struct FileEntry {
    path: String,
    content: String,
    modified_time: u64,
}

impl FileEntry {
    spec fn record(self) -> FileRecord {
        FileRecord { content: self.content@, modified_time: self.modified_time }
    }
}

/// The number of bytes in the UTF-8 encoding of a text.
pub open spec fn byte_len(c: Seq<char>) -> nat {
    vstd::utf8::encode_utf8(c).len()
}

/// The size a metadata snapshot reports for a file with text `c`: its byte
/// length, as the machine delivers it.
pub open spec fn stored_size(c: Seq<char>) -> u64 {
    ((byte_len(c) as usize) as u64)
}

/// Whether a path exists in the filesystem `m`.
pub open spec fn spec_exists(m: Map<Seq<char>, FileRecord>, p: Seq<char>) -> bool {
    m.contains_key(p)
}

/// What reading a path from the filesystem `m` yields: the full text of the
/// file, or nothing when the path is absent.
pub open spec fn spec_read(m: Map<Seq<char>, FileRecord>, p: Seq<char>) -> Option<Seq<char>> {
    if m.contains_key(p) {
        Some(m[p].content)
    } else {
        None
    }
}

/// The metadata snapshot of a path in the filesystem `m`: its modification
/// time and byte size when it exists, and the zeroed absent snapshot
/// otherwise.
pub open spec fn spec_stat(m: Map<Seq<char>, FileRecord>, p: Seq<char>) -> FileMetadata {
    if m.contains_key(p) {
        FileMetadata {
            modified_time: m[p].modified_time,
            size: stored_size(m[p].content),
            exists: true,
        }
    } else {
        FileMetadata::spec_missing()
    }
}

/// The filesystem after replacing the file at `p` with text `c` at time
/// `now`: the file is created when absent and overwritten in full when
/// present.
pub open spec fn spec_write(
    m: Map<Seq<char>, FileRecord>,
    p: Seq<char>,
    c: Seq<char>,
    now: u64,
) -> Map<Seq<char>, FileRecord> {
    m.insert(p, FileRecord { content: c, modified_time: now })
}

/// The filesystem after a backup of `p` at time `now`: when `p` exists, a
/// byte-for-byte copy of its text appears at the derived backup path,
/// overwriting any prior file there; when `p` is absent, nothing changes.
pub open spec fn spec_backup(
    m: Map<Seq<char>, FileRecord>,
    p: Seq<char>,
    now: u64,
) -> Map<Seq<char>, FileRecord> {
    if m.contains_key(p) {
        m.insert(backup_path_of(p), FileRecord { content: m[p].content, modified_time: now })
    } else {
        m
    }
}

spec fn unique_paths(s: Seq<FileEntry>) -> bool {
    forall|i: int, j: int| 0 <= i < j < s.len() ==> s[i].path@ != s[j].path@
}

spec fn entries_map(s: Seq<FileEntry>) -> Map<Seq<char>, FileRecord>
    decreases s.len(),
{
    if s.len() == 0 {
        Map::empty()
    } else {
        entries_map(s.drop_last()).insert(s.last().path@, s.last().record())
    }
}

proof fn lemma_unique_drop_last(s: Seq<FileEntry>)
    requires
        unique_paths(s),
        s.len() > 0,
    ensures
        unique_paths(s.drop_last()),
{
    assert forall|i: int, j: int|
        0 <= i < j < s.drop_last().len() implies s.drop_last()[i].path@
        != s.drop_last()[j].path@ by {
        assert(s.drop_last()[i] == s[i]);
        assert(s.drop_last()[j] == s[j]);
    }
}

proof fn lemma_entries_map_index(s: Seq<FileEntry>, i: int)
    requires
        unique_paths(s),
        0 <= i < s.len(),
    ensures
        entries_map(s).contains_key(s[i].path@),
        entries_map(s)[s[i].path@] == s[i].record(),
    decreases s.len(),
{
    if i == s.len() - 1 {
        assert(s.last() == s[i]);
    } else {
        lemma_unique_drop_last(s);
        lemma_entries_map_index(s.drop_last(), i);
        assert(s.drop_last()[i] == s[i]);
        assert(s[i].path@ != s.last().path@);
    }
}

proof fn lemma_entries_map_absent(s: Seq<FileEntry>, p: Seq<char>)
    requires
        forall|k: int| 0 <= k < s.len() ==> s[k].path@ != p,
    ensures
        !entries_map(s).contains_key(p),
    decreases s.len(),
{
    if s.len() > 0 {
        assert forall|k: int| 0 <= k < s.drop_last().len() implies s.drop_last()[k].path@
            != p by {
            assert(s.drop_last()[k] == s[k]);
        }
        lemma_entries_map_absent(s.drop_last(), p);
        assert(s.last() == s[s.len() - 1]);
    }
}

proof fn lemma_entries_map_push(s: Seq<FileEntry>, e: FileEntry)
    ensures
        entries_map(s.push(e)) == entries_map(s).insert(e.path@, e.record()),
{
    assert(s.push(e).drop_last() =~= s);
    assert(s.push(e).last() == e);
}

proof fn lemma_entries_map_update(s: Seq<FileEntry>, i: int, e: FileEntry)
    requires
        unique_paths(s),
        0 <= i < s.len(),
        e.path@ == s[i].path@,
    ensures
        entries_map(s.update(i, e)) == entries_map(s).insert(e.path@, e.record()),
    decreases s.len(),
{
    let t = s.update(i, e);
    if i == s.len() - 1 {
        assert(t.drop_last() =~= s.drop_last());
        assert(t.last() == e);
        assert(entries_map(s.drop_last()).insert(s[i].path@, s[i].record()).insert(
            e.path@,
            e.record(),
        ) =~= entries_map(s.drop_last()).insert(e.path@, e.record()));
    } else {
        assert(t.drop_last() =~= s.drop_last().update(i, e));
        assert(t.last() == s.last());
        lemma_unique_drop_last(s);
        assert(s.drop_last()[i] == s[i]);
        lemma_entries_map_update(s.drop_last(), i, e);
        assert(s[i].path@ != s.last().path@);
        assert(entries_map(s.drop_last()).insert(e.path@, e.record()).insert(
            s.last().path@,
            s.last().record(),
        ) =~= entries_map(s.drop_last()).insert(s.last().path@, s.last().record()).insert(
            e.path@,
            e.record(),
        ));
    }
}

proof fn lemma_entries_map_remove(s: Seq<FileEntry>, i: int)
    requires
        unique_paths(s),
        0 <= i < s.len(),
    ensures
        entries_map(s.remove(i)) == entries_map(s).remove(s[i].path@),
    decreases s.len(),
{
    let t = s.remove(i);
    lemma_unique_drop_last(s);
    if i == s.len() - 1 {
        assert(t =~= s.drop_last());
        assert forall|k: int| 0 <= k < s.drop_last().len() implies s.drop_last()[k].path@
            != s[i].path@ by {
            assert(s.drop_last()[k] == s[k]);
        }
        lemma_entries_map_absent(s.drop_last(), s[i].path@);
        assert(entries_map(s.drop_last()).insert(s[i].path@, s[i].record()).remove(s[i].path@)
            =~= entries_map(s.drop_last()));
    } else {
        assert(t.drop_last() =~= s.drop_last().remove(i));
        assert(t.last() == s.last());
        assert(s.drop_last()[i] == s[i]);
        lemma_entries_map_remove(s.drop_last(), i);
        assert(s[i].path@ != s.last().path@);
        assert(entries_map(s.drop_last()).remove(s[i].path@).insert(
            s.last().path@,
            s.last().record(),
        ) =~= entries_map(s.drop_last()).insert(s.last().path@, s.last().record()).remove(
            s[i].path@,
        ));
    }
}

/// The filesystem contents the store works on: a finite collection of text
/// files, each under one path. The store holds no state of its own between
/// calls; this value is the state, and every operation says exactly what it
/// does to it.
pub struct FileSystem {
    entries: Vec<FileEntry>,
}

impl View for FileSystem {
    type V = Map<Seq<char>, FileRecord>;

    closed spec fn view(&self) -> Map<Seq<char>, FileRecord> {
        entries_map(self.entries@)
    }
}

impl FileSystem {
    /// Internal well-formedness: paths are pairwise distinct, so each path
    /// names at most one file.
    pub closed spec fn wf(&self) -> bool {
        unique_paths(self.entries@)
    }

    /// An empty filesystem, holding no files.
    pub fn new() -> (r: FileSystem)
        ensures
            r@ == Map::<Seq<char>, FileRecord>::empty(),
            r.wf(),
    {
        FileSystem { entries: Vec::new() }
    }

    fn find(&self, path: &String) -> (r: Option<usize>)
        ensures
            match r {
                Some(i) => i < self.entries@.len() && self.entries@[i as int].path@ == path@,
                None => forall|k: int|
                    0 <= k < self.entries@.len() ==> self.entries@[k].path@ != path@,
            },
    {
        let mut i: usize = 0;
        while i < self.entries.len()
            invariant
                i <= self.entries@.len(),
                forall|k: int| 0 <= k < i ==> self.entries@[k].path@ != path@,
            decreases self.entries@.len() - i,
        {
            if self.entries[i].path == *path {
                return Some(i);
            }
            i = i + 1;
        }
        None
    }

    fn upsert(&mut self, path: String, content: String, now: u64)
        requires
            old(self).wf(),
        ensures
            final(self).wf(),
            final(self)@ == spec_write(old(self)@, path@, content@, now),
    {
        let entry = FileEntry { path, content, modified_time: now };
        match self.find(&entry.path) {
            Some(i) => {
                proof {
                    lemma_entries_map_update(self.entries@, i as int, entry);
                }
                let ghost s = self.entries@;
                self.entries[i] = entry;
                proof {
                    assert forall|a: int, b: int|
                        0 <= a < b < self.entries@.len() implies self.entries@[a].path@
                        != self.entries@[b].path@ by {
                        assert(s[a] == self.entries@[a] || a == i);
                        assert(s[b] == self.entries@[b] || b == i);
                    }
                }
            },
            None => {
                proof {
                    lemma_entries_map_push(self.entries@, entry);
                }
                let ghost s = self.entries@;
                self.entries.push(entry);
                proof {
                    assert forall|a: int, b: int|
                        0 <= a < b < self.entries@.len() implies self.entries@[a].path@
                        != self.entries@[b].path@ by {
                        if b < s.len() {
                            assert(s[a] == self.entries@[a]);
                            assert(s[b] == self.entries@[b]);
                        } else {
                            assert(s[a] == self.entries@[a]);
                        }
                    }
                }
            },
        }
    }

    /// Reports whether a file exists at `path`. Never fails; independent of
    /// and cheaper than a full metadata query.
    pub fn file_exists(&self, path: &str) -> (r: bool)
        requires
            self.wf(),
        ensures
            r == spec_exists(self@, path@),
    {
        let p = path.to_owned();
        match self.find(&p) {
            Some(i) => {
                proof {
                    lemma_entries_map_index(self.entries@, i as int);
                }
                true
            },
            None => {
                proof {
                    lemma_entries_map_absent(self.entries@, path@);
                }
                false
            },
        }
    }

    /// Returns the full text of the file at `path`, all or nothing. Fails
    /// with `IoError`, carrying the path and the cause, exactly when the
    /// file is absent.
    pub fn read_config_file(&self, path: &str) -> (r: Result<String, StoreError>)
        requires
            self.wf(),
        ensures
            spec_read(self@, path@) matches Some(c) ==> (r matches Ok(s) && s@ == c),
            spec_read(self@, path@) is None ==> (r matches Err(StoreError::IoError {
                path: ep,
                cause,
            }) && ep@ == path@ && cause@ == "no such file or directory"@),
    {
        let p = path.to_owned();
        match self.find(&p) {
            Some(i) => {
                proof {
                    lemma_entries_map_index(self.entries@, i as int);
                }
                Ok(self.entries[i].content.clone())
            },
            None => {
                proof {
                    lemma_entries_map_absent(self.entries@, path@);
                }
                Err(StoreError::IoError { path: p, cause: "no such file or directory".to_owned() })
            },
        }
    }

    /// Replaces the file at `path` with `content` in full, creating it when
    /// absent; `now` is the moment of the write, which becomes the file's
    /// new modification time. This operation does not create a backup:
    /// callers wanting loss prevention invoke `create_backup` first. A
    /// medium or permission failure is a matter between the raw caller and
    /// its disk; on this state a write always takes effect, in full.
    pub fn write_config_file(&mut self, path: &str, content: &str, now: u64)
        requires
            old(self).wf(),
        ensures
            final(self).wf(),
            final(self)@ == spec_write(old(self)@, path@, content@, now),
    {
        self.upsert(path.to_owned(), content.to_owned(), now);
    }

    /// The metadata snapshot of `path`: modification time, byte size and
    /// existence. Never fails; a path that is absent yields the zeroed
    /// absent snapshot rather than an error.
    pub fn get_file_metadata(&self, path: &str) -> (r: FileMetadata)
        requires
            self.wf(),
        ensures
            r == spec_stat(self@, path@),
            r.wf(),
    {
        let p = path.to_owned();
        match self.find(&p) {
            Some(i) => {
                proof {
                    lemma_entries_map_index(self.entries@, i as int);
                }
                let n: usize = self.entries[i].content.as_str().len();
                FileMetadata {
                    modified_time: self.entries[i].modified_time,
                    size: n as u64,
                    exists: true,
                }
            },
            None => {
                proof {
                    lemma_entries_map_absent(self.entries@, path@);
                }
                FileMetadata::missing()
            },
        }
    }

    /// Copies the file at `path` byte for byte to the derived backup path
    /// and returns that path; a prior backup there is overwritten, and `now`
    /// becomes the copy's modification time. Fails with `NotFoundError`,
    /// changing nothing, exactly when `path` does not exist beforehand: the
    /// source is checked explicitly before copying.
    pub fn create_backup(&mut self, path: &str, now: u64) -> (r: Result<String, StoreError>)
        requires
            old(self).wf(),
        ensures
            final(self).wf(),
            final(self)@ == spec_backup(old(self)@, path@, now),
            spec_exists(old(self)@, path@) ==> (r matches Ok(bp) && bp@ == backup_path_of(path@)),
            !spec_exists(old(self)@, path@) ==> (r matches Err(StoreError::NotFoundError {
                path: ep,
            }) && ep@ == path@),
    {
        let p = path.to_owned();
        match self.find(&p) {
            Some(i) => {
                proof {
                    lemma_entries_map_index(self.entries@, i as int);
                }
                let content = self.entries[i].content.clone();
                let bp = crate::paths::backup_path_for(path);
                let bp_out = bp.clone();
                self.upsert(bp, content, now);
                Ok(bp_out)
            },
            None => {
                proof {
                    lemma_entries_map_absent(self.entries@, path@);
                }
                Err(StoreError::NotFoundError { path: p })
            },
        }
    }

    /// Removes the file at `path` when it exists and reports whether it did.
    /// The store itself never deletes; this stands for a deletion performed
    /// out of band by an external process, so that its effect on later
    /// operations can be stated.
    pub fn remove_file(&mut self, path: &str) -> (r: bool)
        requires
            old(self).wf(),
        ensures
            final(self).wf(),
            r == spec_exists(old(self)@, path@),
            final(self)@ == old(self)@.remove(path@),
    {
        let p = path.to_owned();
        match self.find(&p) {
            Some(i) => {
                proof {
                    lemma_entries_map_index(self.entries@, i as int);
                    lemma_entries_map_remove(self.entries@, i as int);
                }
                let ghost s = self.entries@;
                let _ = self.entries.remove(i);
                proof {
                    assert forall|a: int, b: int|
                        0 <= a < b < self.entries@.len() implies self.entries@[a].path@
                        != self.entries@[b].path@ by {
                        if a < i as int {
                            assert(self.entries@[a] == s[a]);
                        } else {
                            assert(self.entries@[a] == s[a + 1]);
                        }
                        if b < i as int {
                            assert(self.entries@[b] == s[b]);
                        } else {
                            assert(self.entries@[b] == s[b + 1]);
                        }
                    }
                }
                true
            },
            None => {
                proof {
                    lemma_entries_map_absent(self.entries@, path@);
                    assert(self@.remove(path@) =~= self@);
                }
                false
            },
        }
    }
}

} // verus!
