use vstd::prelude::*;

use crate::classify::classify;
use crate::classify::classify_spec;
use crate::errors::FetchError;

verus! {

/// The table of entry names of a zip archive held in memory, or `None` when
/// the bytes are not a readable zip container: a function of the bytes alone.
pub uninterp spec fn zip_names_of(data: Seq<u8>) -> Option<Seq<Seq<char>>>;

/// The decompressed bytes of the zip entry at `index`, or `None` when the
/// container or that entry cannot be read: a function of bytes and index.
pub uninterp spec fn zip_entry_of(data: Seq<u8>, index: int) -> Option<Seq<u8>>;

/// The gzip decompression of `data`, or `None` when `data` is not a readable
/// gzip stream: a function of the bytes alone.
pub uninterp spec fn gunzip_of(data: Seq<u8>) -> Option<Seq<u8>>;

/// The table of entry paths of a tar archive held in memory, or `None` when
/// the bytes are not a readable tar stream: a function of the bytes alone.
pub uninterp spec fn tar_names_of(data: Seq<u8>) -> Option<Seq<Seq<char>>>;

/// The bytes of the tar entry at `index`, or `None` when the stream or that
/// entry cannot be read: a function of bytes and index.
pub uninterp spec fn tar_entry_of(data: Seq<u8>, index: int) -> Option<Seq<u8>>;

/// Relies on zip's `ZipArchive` over an in-memory cursor (`new`, `len`,
/// `by_index`) and `ZipFile::name`: lists every entry name of the container,
/// in index order.
#[verifier::external_body]
fn zip_entry_names(data: &Vec<u8>) -> (r: Option<Vec<String>>)
    ensures
        r.deep_view() == zip_names_of(data@),
{
    let cursor = std::io::Cursor::new(data.as_slice());
    let mut archive = zip::ZipArchive::new(cursor).ok()?;
    let mut names = Vec::new();
    for i in 0..archive.len() {
        names.push(archive.by_index(i).ok()?.name().to_string());
    }
    Some(names)
}

/// Relies on zip's `ZipArchive::by_index` and `Read::read_to_end` on the
/// returned entry: the decompressed bytes of the entry at `index`.
#[verifier::external_body]
fn zip_entry_bytes(data: &Vec<u8>, index: usize) -> (r: Option<Vec<u8>>)
    ensures
        match r {
            Some(b) => zip_entry_of(data@, index as int) == Some(b@),
            None => zip_entry_of(data@, index as int) is None,
        },
{
    let cursor = std::io::Cursor::new(data.as_slice());
    let mut archive = zip::ZipArchive::new(cursor).ok()?;
    let mut file = archive.by_index(index).ok()?;
    let mut out = Vec::new();
    std::io::Read::read_to_end(&mut file, &mut out).ok()?;
    Some(out)
}

/// Relies on flate2's `read::GzDecoder` and `Read::read_to_end`: the gzip
/// decompression of the bytes.
#[verifier::external_body]
fn gunzip(data: &Vec<u8>) -> (r: Option<Vec<u8>>)
    ensures
        match r {
            Some(b) => gunzip_of(data@) == Some(b@),
            None => gunzip_of(data@) is None,
        },
{
    let mut decoder = flate2::read::GzDecoder::new(data.as_slice());
    let mut out = Vec::new();
    std::io::Read::read_to_end(&mut decoder, &mut out).ok()?;
    Some(out)
}

/// Relies on tar's `Archive::entries` and `Entry::path`: lists every entry
/// path of the stream, in entry order.
#[verifier::external_body]
fn tar_entry_names(data: &Vec<u8>) -> (r: Option<Vec<String>>)
    ensures
        r.deep_view() == tar_names_of(data@),
{
    let mut archive = tar::Archive::new(data.as_slice());
    let mut names = Vec::new();
    for entry in archive.entries().ok()? {
        names.push(entry.ok()?.path().ok()?.to_string_lossy().into_owned());
    }
    Some(names)
}

/// Relies on tar's `Archive::entries` and `Read::read_to_end` on one entry:
/// the bytes of the entry at `index`, reached sequentially.
#[verifier::external_body]
fn tar_entry_bytes(data: &Vec<u8>, index: usize) -> (r: Option<Vec<u8>>)
    ensures
        match r {
            Some(b) => tar_entry_of(data@, index as int) == Some(b@),
            None => tar_entry_of(data@, index as int) is None,
        },
{
    let mut archive = tar::Archive::new(data.as_slice());
    for (i, entry) in archive.entries().ok()?.enumerate() {
        let mut e = entry.ok()?;
        if i == index {
            let mut out = Vec::new();
            std::io::Read::read_to_end(&mut e, &mut out).ok()?;
            return Some(out);
        }
    }
    None
}

/// The container format of a downloaded archive.
#[derive(Clone, Copy, Debug, PartialEq, Eq, Structural)]
pub enum ArchiveFormat {
    Zip,
    TarGz,
}

/// One file an extraction must materialize: the destination path and the
/// entry's bytes.
#[derive(Debug)]
pub struct FileAction {
    pub dest: String,
    pub data: Vec<u8>,
}

/// The wanted entries among `names`, as (entry index, destination) pairs in
/// entry order.
pub open spec fn extraction_plan(names: Seq<Seq<char>>, root: Seq<char>) -> Seq<(int, Seq<char>)>
    decreases names.len(),
{
    if names.len() == 0 {
        Seq::empty()
    } else {
        let rest = extraction_plan(names.drop_last(), root);
        match classify_spec(names.last(), root) {
            Some(d) => rest.push((names.len() - 1, d)),
            None => rest,
        }
    }
}

/// The plan holds exactly the wanted entries, nothing else: every planned
/// pair points at an existing entry whose classification is its destination,
/// and every entry the classifier wants appears in the plan.
pub proof fn lemma_plan_exact(names: Seq<Seq<char>>, root: Seq<char>)
    ensures
        forall|j: int|
            0 <= j < extraction_plan(names, root).len() ==> {
                let p = #[trigger] extraction_plan(names, root)[j];
                0 <= p.0 < names.len() && classify_spec(names[p.0], root) == Some(p.1)
            },
        forall|i: int|
            0 <= i < names.len() && classify_spec(#[trigger] names[i], root) is Some
                ==> exists|j: int|
                0 <= j < extraction_plan(names, root).len() && (#[trigger] extraction_plan(
                    names,
                    root,
                )[j]).0 == i,
    decreases names.len(),
{
    if names.len() > 0 {
        lemma_plan_exact(names.drop_last(), root);
        let rest = extraction_plan(names.drop_last(), root);
        let plan = extraction_plan(names, root);
        assert forall|j: int| 0 <= j < plan.len() implies {
            let p = #[trigger] plan[j];
            0 <= p.0 < names.len() && classify_spec(names[p.0], root) == Some(p.1)
        } by {
            if j < rest.len() {
                assert(plan[j] == rest[j]);
                assert(classify_spec(names.drop_last()[rest[j].0], root) == Some(rest[j].1));
                assert(names.drop_last()[rest[j].0] == names[rest[j].0]);
            } else {
                assert(plan[j] == (names.len() - 1, classify_spec(names.last(), root)->Some_0));
            }
        }
        assert forall|i: int|
            0 <= i < names.len() && classify_spec(#[trigger] names[i], root) is Some implies exists|
            j: int,
        |
            0 <= j < plan.len() && (#[trigger] plan[j]).0 == i by {
            if i < names.len() - 1 {
                assert(names.drop_last()[i] == names[i]);
                let j = choose|j: int| 0 <= j < rest.len() && (#[trigger] rest[j]).0 == i;
                assert(plan[j] == rest[j]);
                assert(0 <= j < plan.len() && plan[j].0 == i);
            } else {
                assert(names.last() == names[i]);
                assert(plan[plan.len() - 1].0 == i);
            }
        }
    }
}

/// `r` lists, in order, the same indices and destinations as the plan `p`.
pub open spec fn matches_plan(r: Seq<(usize, String)>, p: Seq<(int, Seq<char>)>) -> bool {
    &&& r.len() == p.len()
    &&& forall|j: int|
        0 <= j < r.len() ==> (#[trigger] r[j]).0 as int == p[j].0 && r[j].1@ == p[j].1
}

/// Classifies every entry name against `root` and collects the wanted ones
/// with their destinations, in entry order.
pub fn plan_entries(names: &Vec<String>, root: &str) -> (r: Vec<(usize, String)>)
    ensures
        matches_plan(r@, extraction_plan(names.deep_view(), root@)),
{
    let mut out: Vec<(usize, String)> = Vec::new();
    let mut i: usize = 0;
    proof {
        assert(names.deep_view().take(0) =~= Seq::<Seq<char>>::empty());
    }
    while i < names.len()
        invariant
            0 <= i <= names@.len(),
            matches_plan(out@, extraction_plan(names.deep_view().take(i as int), root@)),
        decreases names@.len() - i,
    {
        let ghost prefix = names.deep_view().take(i as int);
        proof {
            assert(names.deep_view().take(i + 1).drop_last() =~= prefix);
            assert(names.deep_view().take(i + 1).last() == names.deep_view()[i as int]);
        }
        if let Some(dest) = classify(names[i].as_str(), root) {
            out.push((i, dest));
        }
        i = i + 1;
    }
    proof {
        assert(names.deep_view().take(names@.len() as int) =~= names.deep_view());
    }
    out
}

/// The zip container is readable and so is every entry the plan wants.
pub open spec fn zip_extractable(archive: Seq<u8>, root: Seq<char>) -> bool {
    match zip_names_of(archive) {
        Some(names) => forall|j: int|
            0 <= j < extraction_plan(names, root).len() ==> zip_entry_of(
                archive,
                (#[trigger] extraction_plan(names, root)[j]).0,
            ) is Some,
        None => false,
    }
}

/// `actions` materializes exactly the plan for the zip archive: destination
/// `j` of the plan with the bytes of the planned entry, nothing else.
pub open spec fn zip_actions_complete(
    actions: Seq<FileAction>,
    archive: Seq<u8>,
    root: Seq<char>,
) -> bool {
    match zip_names_of(archive) {
        Some(names) => {
            let plan = extraction_plan(names, root);
            &&& actions.len() == plan.len()
            &&& forall|j: int|
                0 <= j < plan.len() ==> (#[trigger] actions[j]).dest@ == plan[j].1 && Some(
                    actions[j].data@,
                ) == zip_entry_of(archive, plan[j].0)
        },
        None => false,
    }
}

/// Extracts the wanted entries of a zip archive held in memory, in two
/// passes as the container requires: first classify every entry name, then
/// materialize each wanted entry's bytes with its destination. Succeeds if
/// and only if the container and every wanted entry are readable; any read
/// failure aborts the whole extraction.
pub fn extract_zip(archive: &Vec<u8>, destination_root: &str) -> (r: Result<
    Vec<FileAction>,
    FetchError,
>)
    ensures
        r is Ok <==> zip_extractable(archive@, destination_root@),
        match r {
            Ok(actions) => zip_actions_complete(actions@, archive@, destination_root@),
            Err(e) => e == FetchError::ArchiveReadFailure,
        },
{
    let names = match zip_entry_names(archive) {
        Some(n) => n,
        None => {
            return Err(FetchError::ArchiveReadFailure);
        },
    };
    let plan = plan_entries(&names, destination_root);
    let ghost spec_plan = extraction_plan(names.deep_view(), destination_root@);
    let mut actions: Vec<FileAction> = Vec::new();
    let mut j: usize = 0;
    while j < plan.len()
        invariant
            0 <= j <= plan@.len(),
            zip_names_of(archive@) == Some(names.deep_view()),
            spec_plan == extraction_plan(names.deep_view(), destination_root@),
            matches_plan(plan@, spec_plan),
            actions@.len() == j,
            forall|k: int|
                0 <= k < j ==> (#[trigger] actions@[k]).dest@ == spec_plan[k].1 && Some(
                    actions@[k].data@,
                ) == zip_entry_of(archive@, spec_plan[k].0),
        decreases plan@.len() - j,
    {
        proof {
            assert(plan@[j as int].0 as int == spec_plan[j as int].0);
        }
        let (index, dest) = (plan[j].0, plan[j].1.clone());
        match zip_entry_bytes(archive, index) {
            Some(data) => {
                actions.push(FileAction { dest, data });
            },
            None => {
                proof {
                    assert(zip_entry_of(archive@, (spec_plan[j as int]).0) is None);
                }
                return Err(FetchError::ArchiveReadFailure);
            },
        }
        j = j + 1;
    }
    proof {
        assert forall|k: int| 0 <= k < spec_plan.len() implies zip_entry_of(
            archive@,
            (#[trigger] spec_plan[k]).0,
        ) is Some by {
            assert(Some(actions@[k].data@) == zip_entry_of(archive@, spec_plan[k].0));
        }
    }
    Ok(actions)
}

/// The gzip stream and the tar archive inside it are readable; their entry
/// names then are `tar_gz_names_of`.
pub open spec fn tar_gz_names_of(archive: Seq<u8>) -> Option<Seq<Seq<char>>> {
    match gunzip_of(archive) {
        Some(t) => tar_names_of(t),
        None => None,
    }
}

/// The tar+gzip container is readable and so is every entry the plan wants.
pub open spec fn tar_gz_extractable(archive: Seq<u8>, root: Seq<char>) -> bool {
    match gunzip_of(archive) {
        Some(t) => match tar_names_of(t) {
            Some(names) => forall|j: int|
                0 <= j < extraction_plan(names, root).len() ==> tar_entry_of(
                    t,
                    (#[trigger] extraction_plan(names, root)[j]).0,
                ) is Some,
            None => false,
        },
        None => false,
    }
}

/// `actions` materializes exactly the plan for the tar+gzip archive.
pub open spec fn tar_gz_actions_complete(
    actions: Seq<FileAction>,
    archive: Seq<u8>,
    root: Seq<char>,
) -> bool {
    match gunzip_of(archive) {
        Some(t) => match tar_names_of(t) {
            Some(names) => {
                let plan = extraction_plan(names, root);
                &&& actions.len() == plan.len()
                &&& forall|j: int|
                    0 <= j < plan.len() ==> (#[trigger] actions[j]).dest@ == plan[j].1 && Some(
                        actions[j].data@,
                    ) == tar_entry_of(t, plan[j].0)
            },
            None => false,
        },
        None => false,
    }
}

/// Extracts from a gzip-compressed tar archive held in memory. With
/// `copy_files` set, every wanted entry is materialized exactly as the zip
/// variant does. Without it, the archive is decompressed and every entry
/// classified, but nothing is materialized: the classify-only behaviour kept
/// for toolchains whose artifacts the build does not read back.
pub fn extract_tar_gz(archive: &Vec<u8>, destination_root: &str, copy_files: bool) -> (r: Result<
    Vec<FileAction>,
    FetchError,
>)
    ensures
        copy_files ==> (r is Ok <==> tar_gz_extractable(archive@, destination_root@)),
        !copy_files ==> (r is Ok <==> tar_gz_names_of(archive@) is Some),
        match r {
            Ok(actions) => {
                &&& copy_files ==> tar_gz_actions_complete(actions@, archive@, destination_root@)
                &&& !copy_files ==> actions@ == Seq::<FileAction>::empty()
            },
            Err(e) => e == FetchError::ArchiveReadFailure,
        },
{
    let tar_data = match gunzip(archive) {
        Some(t) => t,
        None => {
            return Err(FetchError::ArchiveReadFailure);
        },
    };
    let names = match tar_entry_names(&tar_data) {
        Some(n) => n,
        None => {
            return Err(FetchError::ArchiveReadFailure);
        },
    };
    if !copy_files {
        let actions: Vec<FileAction> = Vec::new();
        proof {
            assert(actions@ =~= Seq::<FileAction>::empty());
        }
        return Ok(actions);
    }
    let plan = plan_entries(&names, destination_root);
    let ghost spec_plan = extraction_plan(names.deep_view(), destination_root@);
    let mut actions: Vec<FileAction> = Vec::new();
    let mut j: usize = 0;
    while j < plan.len()
        invariant
            copy_files,
            0 <= j <= plan@.len(),
            gunzip_of(archive@) == Some(tar_data@),
            tar_names_of(tar_data@) == Some(names.deep_view()),
            spec_plan == extraction_plan(names.deep_view(), destination_root@),
            matches_plan(plan@, spec_plan),
            actions@.len() == j,
            forall|k: int|
                0 <= k < j ==> (#[trigger] actions@[k]).dest@ == spec_plan[k].1 && Some(
                    actions@[k].data@,
                ) == tar_entry_of(tar_data@, spec_plan[k].0),
        decreases plan@.len() - j,
    {
        proof {
            assert(plan@[j as int].0 as int == spec_plan[j as int].0);
        }
        let (index, dest) = (plan[j].0, plan[j].1.clone());
        match tar_entry_bytes(&tar_data, index) {
            Some(data) => {
                actions.push(FileAction { dest, data });
            },
            None => {
                proof {
                    assert(tar_entry_of(tar_data@, (spec_plan[j as int]).0) is None);
                }
                return Err(FetchError::ArchiveReadFailure);
            },
        }
        j = j + 1;
    }
    proof {
        assert forall|k: int| 0 <= k < spec_plan.len() implies tar_entry_of(
            tar_data@,
            (#[trigger] spec_plan[k]).0,
        ) is Some by {
            assert(Some(actions@[k].data@) == tar_entry_of(tar_data@, spec_plan[k].0));
        }
    }
    Ok(actions)
}

/// Extracts one downloaded archive according to its container format. A zip
/// archive has every wanted entry materialized; a tar+gzip archive keeps the
/// classify-only behaviour of `extract_tar_gz`, so only its readability is
/// checked and no file is produced from it.
pub fn extract_archive(format: ArchiveFormat, archive: &Vec<u8>, destination_root: &str) -> (r:
    Result<Vec<FileAction>, FetchError>)
    ensures
        format is Zip ==> (r is Ok <==> zip_extractable(archive@, destination_root@)),
        format is TarGz ==> (r is Ok <==> tar_gz_names_of(archive@) is Some),
        match r {
            Ok(actions) => {
                &&& format is Zip ==> zip_actions_complete(actions@, archive@, destination_root@)
                &&& format is TarGz ==> actions@ == Seq::<FileAction>::empty()
            },
            Err(e) => e == FetchError::ArchiveReadFailure,
        },
{
    match format {
        ArchiveFormat::Zip => extract_zip(archive, destination_root),
        ArchiveFormat::TarGz => extract_tar_gz(archive, destination_root, false),
    }
}

} // verus!
