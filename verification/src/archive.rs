use vstd::prelude::*;
use vstd::utf8::encode_utf8;

use crate::error::BuildError;
use crate::trusted::{
    archive_entries, archive_open, finish_archive, new_archive, stored_archive,
};

pub use crate::trusted::ArchiveWriter;

verus! {

/// One file of the archive: where it lies and what it holds.
pub struct ArchiveEntry {
    pub path: String,
    pub content: Vec<u8>,
}

/// A file as the archive sees it: the characters of its path and the bytes of
/// its content.
pub type FileModel = (Seq<char>, Seq<u8>);

impl View for ArchiveEntry {
    type V = FileModel;

    open spec fn view(&self) -> FileModel {
        (self.path@, self.content@)
    }
}

/// The longest path that a zip container can record, in bytes of UTF-8.
pub const MAX_PATH_BYTES: usize = 0xFFFF;

/// The most bytes that a file of the archive can hold.
pub const MAX_FILE_BYTES: usize = 0xFFFF_FFFF;

/// Whether a path is short enough for the archive.
pub open spec fn path_fits(path: Seq<char>) -> bool {
    encode_utf8(path).len() <= MAX_PATH_BYTES
}

/// Whether the archive can take a file: its path is short enough, and its
/// content is not too large.
pub open spec fn fits(file: FileModel) -> bool {
    path_fits(file.0) && file.1.len() <= MAX_FILE_BYTES
}

/// Whether the archive can take every file of a run.
pub open spec fn all_fit(files: Seq<FileModel>) -> bool {
    forall|i: int| 0 <= i < files.len() ==> fits(#[trigger] files[i])
}

/// Whether the file at `i` is the first of a run that the archive cannot
/// take.
pub open spec fn first_unfit(files: Seq<FileModel>, i: int) -> bool {
    0 <= i < files.len() && !fits(files[i]) && all_fit(files.take(i))
}

/// The paths and contents of a run of entries, one for one.
pub open spec fn entry_models(entries: Seq<ArchiveEntry>) -> Seq<FileModel> {
    entries.map_values(|e: ArchiveEntry| e@)
}

/// Whether an entry further back has the path of the entry at `i`.
pub open spec fn superseded(entries: Seq<FileModel>, i: int) -> bool {
    exists|j: int| i < j < entries.len() && (#[trigger] entries[j]).0 == entries[i].0
}

/// Of the first `n` entries, those whose path no later entry has, in order.
pub open spec fn kept(entries: Seq<FileModel>, n: nat) -> Seq<FileModel>
    recommends
        n <= entries.len(),
    decreases n,
{
    if n == 0 {
        Seq::empty()
    } else if superseded(entries, n - 1) {
        kept(entries, (n - 1) as nat)
    } else {
        kept(entries, (n - 1) as nat).push(entries[n - 1])
    }
}

/// What is left of a run of entries when, of those that share a path, only
/// the last one stays: the last write wins, and the others leave no trace.
pub open spec fn keep_last(entries: Seq<FileModel>) -> Seq<FileModel> {
    kept(entries, entries.len())
}

/// Whether no two entries have the same path.
pub open spec fn distinct_paths(entries: Seq<FileModel>) -> bool {
    forall|a: int, b: int|
        0 <= a < b < entries.len() ==> (#[trigger] entries[a]).0 != (#[trigger] entries[b]).0
}

/// Whether `entry` is one of the first `n` entries, and no later entry has
/// its path.
pub open spec fn is_last_write(entries: Seq<FileModel>, n: nat, entry: FileModel) -> bool {
    exists|i: int| 0 <= i < n && !superseded(entries, i) && #[trigger] entries[i] == entry
}

/// Whether an entry further back has the path of the entry at `i`.
pub fn is_superseded(entries: &Vec<ArchiveEntry>, i: usize) -> (r: bool)
    requires
        i < entries.len(),
    ensures
        r == superseded(entry_models(entries@), i as int),
{
    let ghost models = entry_models(entries@);
    let mut j: usize = i + 1;
    while j < entries.len()
        invariant
            i < j <= entries.len(),
            models == entry_models(entries@),
            forall|k: int| i < k < j ==> (#[trigger] models[k]).0 != models[i as int].0,
        decreases entries.len() - j,
    {
        if entries[j].path == entries[i].path {
            assert(models[j as int].0 == models[i as int].0);
            return true;
        }
        j += 1;
    }
    false
}

/// Drops every entry whose path a later entry takes, and keeps the others in
/// their order.
pub fn keep_last_entries(entries: &Vec<ArchiveEntry>) -> (r: Vec<ArchiveEntry>)
    ensures
        entry_models(r@) == keep_last(entry_models(entries@)),
{
    let ghost models = entry_models(entries@);
    let mut out: Vec<ArchiveEntry> = Vec::new();
    let mut i: usize = 0;
    assert(entry_models(out@) =~= kept(models, 0));
    while i < entries.len()
        invariant
            i <= entries.len(),
            models == entry_models(entries@),
            entry_models(out@) == kept(models, i as nat),
        decreases entries.len() - i,
    {
        if !is_superseded(entries, i) {
            let entry = ArchiveEntry {
                path: entries[i].path.clone(),
                content: entries[i].content.clone(),
            };
            assert(entry@ == models[i as int]);
            out.push(entry);
            assert(entry_models(out@) =~= kept(models, i as nat).push(models[i as int]));
        }
        i += 1;
    }
    out
}

impl ArchiveWriter {
    /// An open archive that holds no file yet.
    pub fn new() -> (r: Self)
        ensures
            archive_entries(r) == Seq::<FileModel>::empty(),
            archive_open(r),
    {
        new_archive()
    }

    /// Closes the archive and hands out its bytes. An open archive can
    /// always be closed; the failure of another one is reported under the
    /// empty path.
    pub fn finish(self) -> (r: Result<Vec<u8>, BuildError>)
        ensures
            archive_open(self) ==> r is Ok,
            match r {
                Ok(bytes) => bytes@ == stored_archive(archive_entries(self)),
                Err(e) => e is SinkWrite && e.subject() == Seq::<char>::empty(),
            },
    {
        let mut writer = self;
        match finish_archive(&mut writer) {
            Ok(bytes) => Ok(bytes),
            Err(e) => {
                let failure = BuildError::sink_refused("", &e);
                proof {
                    reveal_strlit("");
                    assert(failure.subject() =~= Seq::<char>::empty());
                }
                Err(failure)
            },
        }
    }
}

proof fn lemma_kept(entries: Seq<FileModel>, n: nat)
    requires
        n <= entries.len(),
    ensures
        forall|a: int|
            0 <= a < kept(entries, n).len() ==> is_last_write(
                entries,
                n,
                #[trigger] kept(entries, n)[a],
            ),
        distinct_paths(kept(entries, n)),
        forall|i: int|
            0 <= i < n && !superseded(entries, i) ==> kept(entries, n).contains(
                #[trigger] entries[i],
            ),
    decreases n,
{
    if n > 0 {
        let last = n - 1;
        let before = kept(entries, last as nat);
        let now = kept(entries, n);
        lemma_kept(entries, last as nat);
        assert forall|a: int| 0 <= a < before.len() implies is_last_write(
            entries,
            n,
            #[trigger] before[a],
        ) by {
            assert(is_last_write(entries, last as nat, before[a]));
            let i = choose|i: int|
                0 <= i < last && !superseded(entries, i) && #[trigger] entries[i] == before[a];
            assert(0 <= i < n && !superseded(entries, i) && entries[i] == before[a]);
        }
        if !superseded(entries, last) {
            assert(now == before.push(entries[last]));
            assert(is_last_write(entries, n, entries[last]));
            assert forall|a: int, b: int| 0 <= a < b < now.len() implies (#[trigger] now[a]).0 != (
            #[trigger] now[b]).0 by {
                if b == before.len() {
                    assert(is_last_write(entries, last as nat, before[a]));
                    let i = choose|i: int|
                        0 <= i < last && !superseded(entries, i) && #[trigger] entries[i]
                            == before[a];
                    if entries[i].0 == entries[last].0 {
                        assert(superseded(entries, i));
                    }
                } else {
                    assert(before[a].0 != before[b].0);
                }
            }
            assert forall|i: int| 0 <= i < n && !superseded(entries, i) implies now.contains(
                #[trigger] entries[i],
            ) by {
                if i < last {
                    let a = choose|a: int| 0 <= a < before.len() && before[a] == entries[i];
                    assert(now[a] == entries[i]);
                } else {
                    assert(now[before.len() as int] == entries[i]);
                }
            }
        }
    }
}

proof fn lemma_kept_of_distinct(entries: Seq<FileModel>, n: nat)
    requires
        distinct_paths(entries),
        n <= entries.len(),
    ensures
        kept(entries, n) == entries.take(n as int),
    decreases n,
{
    if n > 0 {
        lemma_kept_of_distinct(entries, (n - 1) as nat);
        if superseded(entries, n - 1) {
            let j = choose|j: int|
                n - 1 < j < entries.len() && (#[trigger] entries[j]).0 == entries[n - 1].0;
            assert(entries[n - 1].0 != entries[j].0);
        }
        assert(entries.take(n as int) =~= entries.take(n - 1).push(entries[n - 1]));
    } else {
        assert(entries.take(0) =~= Seq::empty());
    }
}

/// After the last write has won, no two entries have the same path.
pub proof fn lemma_keep_last_distinct(entries: Seq<FileModel>)
    ensures
        distinct_paths(keep_last(entries)),
{
    lemma_kept(entries, entries.len());
}

/// The last write wins: an entry whose path no later entry has is kept as it
/// is, path and content.
pub proof fn lemma_keep_last_keeps_last(entries: Seq<FileModel>, i: int)
    requires
        0 <= i < entries.len(),
        !superseded(entries, i),
    ensures
        keep_last(entries).contains(entries[i]),
{
    lemma_kept(entries, entries.len());
}

/// Only the last write wins: whatever is kept was handed over, and no later
/// entry has its path.
pub proof fn lemma_keep_last_only_last(entries: Seq<FileModel>, a: int)
    requires
        0 <= a < keep_last(entries).len(),
    ensures
        is_last_write(entries, entries.len(), keep_last(entries)[a]),
{
    lemma_kept(entries, entries.len());
}

/// Of two entries with the same path the later one decides what the archive
/// holds at that path: where no entry further back has the path either, the
/// later entry is kept, and whatever is kept at that path is that entry.
pub proof fn lemma_duplicate_path_last_wins(entries: Seq<FileModel>, i: int, j: int)
    requires
        0 <= i < j < entries.len(),
        entries[i].0 == entries[j].0,
        !superseded(entries, j),
    ensures
        keep_last(entries).contains(entries[j]),
        forall|a: int|
            0 <= a < keep_last(entries).len() && (#[trigger] keep_last(entries)[a]).0
                == entries[i].0 ==> keep_last(entries)[a] == entries[j],
{
    lemma_kept(entries, entries.len());
    let files = keep_last(entries);
    let b = choose|b: int| 0 <= b < files.len() && files[b] == entries[j];
    assert forall|a: int| 0 <= a < files.len() && (#[trigger] files[a]).0
        == entries[i].0 implies files[a] == entries[j] by {
        if a < b {
            assert(files[a].0 != files[b].0);
        } else if b < a {
            assert(files[b].0 != files[a].0);
        }
    }
}

/// Where no two entries have the same path, nothing is dropped.
pub proof fn lemma_keep_last_of_distinct(entries: Seq<FileModel>)
    requires
        distinct_paths(entries),
    ensures
        keep_last(entries) == entries,
{
    lemma_kept_of_distinct(entries, entries.len());
    assert(entries.take(entries.len() as int) =~= entries);
}

/// What the archive can take as it is handed over, it can take after the
/// last write has won: nothing is kept that was not handed over.
pub proof fn lemma_keep_last_fits(entries: Seq<FileModel>)
    requires
        all_fit(entries),
    ensures
        all_fit(keep_last(entries)),
{
    let files = keep_last(entries);
    assert forall|a: int| 0 <= a < files.len() implies fits(#[trigger] files[a]) by {
        lemma_keep_last_only_last(entries, a);
        let i = choose|i: int|
            0 <= i < entries.len() && !superseded(entries, i) && #[trigger] entries[i] == files[a];
        assert(fits(entries[i]));
    }
}

} // verus!
