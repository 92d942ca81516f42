use vstd::prelude::*;
use crate::media::MediaRecord;
use crate::paths::{
    path_extension, path_file_name, paths_equal, spec_extension, spec_file_name, spec_paths_equal,
};

verus! {

/// The sum of the sizes of directory entries.
pub open spec fn total_size(entries: Seq<(String, u64)>) -> int
    decreases entries.len(),
{
    if entries.len() == 0 {
        0
    } else {
        total_size(entries.drop_last()) + entries.last().1
    }
}

proof fn lemma_total_size_prefix(entries: Seq<(String, u64)>, i: int)
    requires
        0 <= i <= entries.len(),
    ensures
        0 <= total_size(entries.take(i)) <= total_size(entries),
    decreases entries.len() - i,
{
    if i < entries.len() {
        lemma_total_size_prefix(entries, i + 1);
        assert(entries.take(i + 1).drop_last() =~= entries.take(i));
    } else {
        assert(entries.take(i) =~= entries);
    }
    lemma_total_size_nonneg(entries.take(i));
}

proof fn lemma_total_size_nonneg(entries: Seq<(String, u64)>)
    ensures
        total_size(entries) >= 0,
    decreases entries.len(),
{
    if entries.len() > 0 {
        lemma_total_size_nonneg(entries.drop_last());
    }
}

/// The paths of the entries of a storage directory (as listed, with their
/// sizes), in their order, and the storage they take.
pub fn get_files_in_storage(entries: &Vec<(String, u64)>) -> (res: (Vec<String>, u64))
    requires
        total_size(entries@) <= u64::MAX,
    ensures
        res.0@ == entries@.map_values(|e: (String, u64)| e.0),
        res.1 == total_size(entries@),
{
    let mut paths: Vec<String> = Vec::new();
    let mut storage: u64 = 0;
    let n = entries.len();
    for i in 0..n
        invariant
            n == entries@.len(),
            total_size(entries@) <= u64::MAX,
            paths@ == entries@.take(i as int).map_values(|e: (String, u64)| e.0),
            storage == total_size(entries@.take(i as int)),
    {
        proof {
            lemma_total_size_prefix(entries@, i + 1);
            assert(entries@.take(i + 1).drop_last() =~= entries@.take(i as int));
        }
        let e = &entries[i];
        paths.push(e.0.clone());
        storage = storage + e.1;
        assert(paths@ =~= entries@.take(i + 1).map_values(|e: (String, u64)| e.0));
    }
    assert(entries@.take(n as int) =~= entries@);
    (paths, storage)
}

/// The paths of the records, in their order.
pub fn get_path(media_vec: &Vec<MediaRecord>) -> (paths: Vec<String>)
    ensures
        paths@ == media_vec@.map_values(|m: MediaRecord| m.path),
{
    let mut paths: Vec<String> = Vec::new();
    let n = media_vec.len();
    for i in 0..n
        invariant
            n == media_vec@.len(),
            paths@ == media_vec@.take(i as int).map_values(|m: MediaRecord| m.path),
    {
        paths.push(media_vec[i].path.clone());
        assert(paths@ =~= media_vec@.take(i + 1).map_values(|m: MediaRecord| m.path));
    }
    assert(media_vec@.take(n as int) =~= media_vec@);
    paths
}

/// The records whose flag is `keep`, in their order.
pub open spec fn records_where(media: Seq<MediaRecord>, exists: Seq<bool>, keep: bool) -> Seq<
    MediaRecord,
>
    decreases media.len(),
{
    if media.len() == 0 {
        Seq::empty()
    } else {
        let rest = records_where(media.drop_last(), exists.take(media.len() - 1), keep);
        if exists[media.len() - 1] == keep {
            rest.push(media.last())
        } else {
            rest
        }
    }
}

/// Splits the database's records by whether their file still exists
/// (`exists`, one flag per record): the records to keep and the records of
/// missing files, which are deleted from the database; each in order.
pub fn remove_deleted_file_records(media_vec: Vec<MediaRecord>, exists: &Vec<bool>) -> (res: (
    Vec<MediaRecord>,
    Vec<MediaRecord>,
))
    requires
        media_vec@.len() == exists@.len(),
    ensures
        res.0@ == records_where(media_vec@, exists@, true),
        res.1@ == records_where(media_vec@, exists@, false),
        res.0@.len() + res.1@.len() == media_vec@.len(),
{
    let mut kept: Vec<MediaRecord> = Vec::new();
    let mut removed: Vec<MediaRecord> = Vec::new();
    let n = media_vec.len();
    let ghost ms = media_vec@;
    let ghost fs = exists@;
    let mut i: usize = 0;
    while i < n
        invariant
            n == ms.len(),
            fs.len() == n,
            ms == media_vec@,
            fs == exists@,
            0 <= i <= n,
            kept@ == records_where(ms.take(i as int), fs.take(i as int), true),
            removed@ == records_where(ms.take(i as int), fs.take(i as int), false),
            kept@.len() + removed@.len() == i,
        decreases n - i,
    {
        proof {
            let mi = ms.take(i + 1);
            assert(mi.drop_last() =~= ms.take(i as int));
            assert(fs.take(i + 1).take(i as int) =~= fs.take(i as int));
            assert(mi.last() == ms[i as int]);
        }
        let m = media_vec[i].clone_record();
        if exists[i] {
            kept.push(m);
        } else {
            removed.push(m);
        }
        i = i + 1;
    }
    assert(ms.take(n as int) =~= ms);
    assert(fs.take(n as int) =~= fs);
    (kept, removed)
}

impl MediaRecord {
    /// A field-by-field copy, equal to the one copied.
    pub fn clone_record(&self) -> (r: MediaRecord)
        ensures
            r == *self,
    {
        MediaRecord {
            name: self.name.clone(),
            size: self.size,
            in_host: self.in_host.clone(),
            cpid: self.cpid.clone(),
            path: self.path.clone(),
            checksum: self.checksum.clone(),
            type_: self.type_.clone(),
        }
    }
}

/// Whether a path equals (as a path) one of the recorded paths.
pub open spec fn recorded(paths: Seq<String>, f: String) -> bool {
    exists|j: int| 0 <= j < paths.len() && spec_paths_equal(paths[j]@, f@)
}

/// Whether a path is among the recorded ones, compared as paths.
pub fn contains_path(paths: &Vec<String>, f: &String) -> (found: bool)
    ensures
        found == recorded(paths@, *f),
        found <==> exists|j: int| 0 <= j < paths@.len() && spec_paths_equal(paths@[j]@, f@),
{
    let n = paths.len();
    for j in 0..n
        invariant
            n == paths@.len(),
            forall|k: int| 0 <= k < j ==> !spec_paths_equal(paths@[k]@, f@),
    {
        if paths_equal(paths[j].as_str(), f.as_str()) {
            return true;
        }
    }
    false
}

/// The files that are not recorded, in their order.
pub open spec fn unrecorded(paths: Seq<String>, files: Seq<String>) -> Seq<String>
    decreases files.len(),
{
    if files.len() == 0 {
        Seq::empty()
    } else {
        let rest = unrecorded(paths, files.drop_last());
        if recorded(paths, files.last()) {
            rest
        } else {
            rest.push(files.last())
        }
    }
}

/// The files left by [`unrecorded`] are those of `files` that equal no
/// recorded path, compared as paths.
proof fn lemma_unrecorded(paths: Seq<String>, files: Seq<String>)
    ensures
        forall|i: int|
            0 <= i < unrecorded(paths, files).len() ==> files.contains(
                #[trigger] unrecorded(paths, files)[i],
            ),
        forall|i: int, j: int|
            0 <= i < unrecorded(paths, files).len() && 0 <= j < paths.len() ==> !spec_paths_equal(
                #[trigger] paths[j]@,
                (#[trigger] unrecorded(paths, files)[i])@,
            ),
        forall|k: int|
            0 <= k < files.len() && (forall|j: int|
                0 <= j < paths.len() ==> !spec_paths_equal(#[trigger] paths[j]@, files[k]@))
                ==> unrecorded(paths, files).contains(#[trigger] files[k]),
    decreases files.len(),
{
    if files.len() > 0 {
        let init = files.drop_last();
        let f = files.last();
        lemma_unrecorded(paths, init);
        let rest = unrecorded(paths, init);
        let r = unrecorded(paths, files);
        assert forall|i: int| 0 <= i < r.len() implies files.contains(#[trigger] r[i]) by {
            if i < rest.len() {
                assert(r[i] == rest[i]);
                let k = choose|k: int| 0 <= k < init.len() && init[k] == rest[i];
                assert(files[k] == r[i]);
            } else {
                assert(r[i] == f);
                assert(files[files.len() - 1] == f);
            }
        }
        assert forall|i: int, j: int|
            0 <= i < r.len() && 0 <= j < paths.len() implies !spec_paths_equal(
            #[trigger] paths[j]@,
            (#[trigger] r[i])@,
        ) by {
            if i < rest.len() {
                assert(r[i] == rest[i]);
            } else {
                assert(r[i] == f);
                assert(!recorded(paths, f));
            }
        }
        assert forall|k: int|
            0 <= k < files.len() && (forall|j: int|
                0 <= j < paths.len() ==> !spec_paths_equal(#[trigger] paths[j]@, files[k]@))
            implies r.contains(#[trigger] files[k]) by {
            if k < init.len() {
                assert(init[k] == files[k]);
                assert(rest.contains(init[k]));
                let i = choose|i: int| 0 <= i < rest.len() && rest[i] == init[k];
                assert(r[i] == rest[i]);
            } else {
                assert(files[k] == f);
                assert(!recorded(paths, f));
                assert(r[r.len() - 1] == f);
            }
        }
    }
}

/// New-files law: the new files are taken from the directory listing;
/// none of them equals (as a path) the path of any record, at whatever
/// position that record stands; every listed file that equals no record's
/// path is among them; and there are no more of them than listed files.
pub proof fn law_new_files_are_unrecorded(media: Seq<MediaRecord>, files: Seq<String>)
    ensures
        ({
            let r = unrecorded(media.map_values(|m: MediaRecord| m.path), files);
            &&& forall|i: int| 0 <= i < r.len() ==> files.contains(#[trigger] r[i])
            &&& forall|i: int, j: int|
                0 <= i < r.len() && 0 <= j < media.len() ==> !spec_paths_equal(
                    (#[trigger] media[j]).path@,
                    (#[trigger] r[i])@,
                )
            &&& forall|k: int|
                0 <= k < files.len() && (forall|j: int|
                    0 <= j < media.len() ==> !spec_paths_equal(
                        (#[trigger] media[j]).path@,
                        files[k]@,
                    )) ==> r.contains(#[trigger] files[k])
            &&& r.len() <= files.len()
        }),
{
    let paths = media.map_values(|m: MediaRecord| m.path);
    let r = unrecorded(paths, files);
    lemma_unrecorded(paths, files);
    lemma_unrecorded_len(paths, files);
    assert forall|i: int, j: int|
        0 <= i < r.len() && 0 <= j < media.len() implies !spec_paths_equal(
        (#[trigger] media[j]).path@,
        (#[trigger] r[i])@,
    ) by {
        assert(paths[j] == media[j].path);
    }
    assert forall|k: int|
        0 <= k < files.len() && (forall|j: int|
            0 <= j < media.len() ==> !spec_paths_equal((#[trigger] media[j]).path@, files[k]@))
        implies r.contains(#[trigger] files[k]) by {
        assert forall|j: int| 0 <= j < paths.len() implies !spec_paths_equal(
            #[trigger] paths[j]@,
            files[k]@,
        ) by {
            assert(paths[j] == media[j].path);
        }
    }
}

/// No more files are left than were listed.
proof fn lemma_unrecorded_len(paths: Seq<String>, files: Seq<String>)
    ensures
        unrecorded(paths, files).len() <= files.len(),
    decreases files.len(),
{
    if files.len() > 0 {
        lemma_unrecorded_len(paths, files.drop_last());
    }
}

/// The files of a storage directory (`files`) that the database's records
/// do not name, with their count: every file when there are no records.
pub fn get_new_files(media_vec: &Vec<MediaRecord>, files: &Vec<String>) -> (res: (
    Vec<String>,
    usize,
))
    ensures
        res.0@ == unrecorded(media_vec@.map_values(|m: MediaRecord| m.path), files@),
        res.1 == res.0@.len(),
{
    let path_vec = get_path(media_vec);
    let mut new_files: Vec<String> = Vec::new();
    let n = files.len();
    if n == 0 {
        return (new_files, 0);
    }
    if path_vec.len() == 0 {
        let mut all: Vec<String> = Vec::new();
        for i in 0..n
            invariant
                n == files@.len(),
                path_vec@.len() == 0,
                all@ == unrecorded(path_vec@, files@.take(i as int)),
                all@ == files@.take(i as int),
        {
            proof {
                assert(files@.take(i + 1).drop_last() =~= files@.take(i as int));
                assert(!recorded(path_vec@, files@[i as int]));
            }
            all.push(files[i].clone());
            assert(all@ =~= files@.take(i + 1));
        }
        assert(files@.take(n as int) =~= files@);
        let len = all.len();
        return (all, len);
    }
    for i in 0..n
        invariant
            n == files@.len(),
            new_files@ == unrecorded(path_vec@, files@.take(i as int)),
    {
        proof {
            assert(files@.take(i + 1).drop_last() =~= files@.take(i as int));
        }
        if !contains_path(&path_vec, &files[i]) {
            new_files.push(files[i].clone());
        }
    }
    assert(files@.take(n as int) =~= files@);
    let c = new_files.len();
    (new_files, c)
}

/// The record of a new public file at `path` of `size` bytes with
/// `checksum`, owned and stored by host `host_cpid`: named after its last
/// component, typed by its extension; none when the path has no name or
/// no extension (the process cannot record such a file).
pub fn pub_file_record(path: &String, size: u64, checksum: String, host_cpid: &String) -> (res:
    Option<MediaRecord>)
    ensures
        match res {
            Some(m) => {
                &&& spec_file_name(path@) == Some(m.name@)
                &&& spec_extension(path@) == Some(m.type_@)
                &&& m.path == *path
                &&& m.size == size as i64
                &&& m.checksum == checksum
                &&& m.in_host == *host_cpid
                &&& m.cpid == *host_cpid
            },
            None => spec_file_name(path@) is None || spec_extension(path@) is None,
        },
{
    let name = match path_file_name(path.as_str()) {
        Some(n) => n,
        None => {
            return None;
        },
    };
    let type_ = match path_extension(path.as_str()) {
        Some(e) => e,
        None => {
            return None;
        },
    };
    Some(
        MediaRecord {
            name,
            size: size as i64,
            in_host: host_cpid.clone(),
            cpid: host_cpid.clone(),
            path: path.clone(),
            checksum,
            type_,
        },
    )
}

} // verus!
