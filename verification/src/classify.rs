use vstd::prelude::*;

use crate::text::ends_with;
use crate::text::split_at_char;
use crate::text::str_ends_with;
use crate::text::str_eq;
use crate::text::str_split;

verus! {

/// The slash-separated pieces of an archive-internal entry path.
pub open spec fn segments_of(path: Seq<char>) -> Seq<Seq<char>> {
    split_at_char(path, '/')
}

/// The destination subtree for the artifact kind of a wanted entry.
///
/// An entry is wanted only when its segment list ends in the two-deep
/// `lib/<toolchain-subdir>/<name>` shape — `lib` third from the end, under
/// any number of leading components, including none — and the final segment
/// names a dynamic library (`.dll`, destined for the `dll` subtree) or an
/// import library (`.lib`, destined for the `lib` subtree). Every other
/// shape is irrelevant; in particular an entry nested deeper below the
/// toolchain subdirectory puts `lib` further from the end and is dropped.
pub open spec fn kind_dir_of(path: Seq<char>) -> Option<Seq<char>> {
    let segs = segments_of(path);
    if segs.len() >= 3 && segs[segs.len() - 3] == "lib"@ {
        if ends_with(segs.last(), ".dll"@) {
            Some("dll"@)
        } else if ends_with(segs.last(), ".lib"@) {
            Some("lib"@)
        } else {
            None
        }
    } else {
        None
    }
}

/// `seg` occurs as a whole path segment of `path`.
pub open spec fn has_segment(path: Seq<char>, seg: Seq<char>) -> bool {
    segments_of(path).contains(seg)
}

/// The destination subtree for the bit width of an entry: an `x64` segment
/// anywhere selects `64`, else an `x86` segment selects `32`, and with
/// neither the entry is dropped rather than given a default width.
pub open spec fn width_dir_of(path: Seq<char>) -> Option<Seq<char>> {
    if has_segment(path, "x64"@) {
        Some("64"@)
    } else if has_segment(path, "x86"@) {
        Some("32"@)
    } else {
        None
    }
}

/// The destination path `root/<kind>/<width>/<name>`.
pub open spec fn dest_path(root: Seq<char>, kind: Seq<char>, width: Seq<char>, name: Seq<char>) -> Seq<char> {
    root + "/"@ + kind + "/"@ + width + "/"@ + name
}

/// Where an archive entry must be materialized under `root`, or `None` when
/// the entry is not a wanted binary artifact.
pub open spec fn classify_spec(path: Seq<char>, root: Seq<char>) -> Option<Seq<char>> {
    match (kind_dir_of(path), width_dir_of(path)) {
        (Some(kind), Some(width)) => Some(
            dest_path(root, kind, width, segments_of(path).last()),
        ),
        _ => None,
    }
}

/// Every entry of the wanted shape that carries an `x64` segment lands in the
/// 64-bit subtree of its kind; with an `x86` segment (and no `x64`) it lands
/// in the 32-bit subtree; with neither segment it is dropped, never given a
/// default width.
pub proof fn lemma_width_selection(path: Seq<char>, root: Seq<char>)
    requires
        kind_dir_of(path) is Some,
    ensures
        has_segment(path, "x64"@) ==> classify_spec(path, root) == Some(
            dest_path(root, kind_dir_of(path)->Some_0, "64"@, segments_of(path).last()),
        ),
        !has_segment(path, "x64"@) && has_segment(path, "x86"@) ==> classify_spec(path, root)
            == Some(dest_path(root, kind_dir_of(path)->Some_0, "32"@, segments_of(path).last())),
        !has_segment(path, "x64"@) && !has_segment(path, "x86"@) ==> classify_spec(path, root)
            is None,
{
}

/// An entry path whose segments do not end in the wanted
/// `lib/<sub>/<name>.{dll,lib}` shape is never given a destination, whatever
/// bit-width segments it carries.
pub proof fn lemma_unwanted_shape_dropped(path: Seq<char>, root: Seq<char>)
    requires
        kind_dir_of(path) is None,
    ensures
        classify_spec(path, root) is None,
{
}

/// Decides whether one archive entry is a wanted binary artifact and, if so,
/// where it must be materialized: `root/<dll|lib>/<64|32>/<basename>`.
pub fn classify(entry_path: &str, destination_root: &str) -> (r: Option<String>)
    ensures
        r.deep_view() == classify_spec(entry_path@, destination_root@),
{
    let segs = str_split(entry_path, '/');
    let n = segs.len();
    if n < 3 {
        return None;
    }
    if !str_eq(segs[n - 3].as_str(), "lib") {
        return None;
    }
    let name = segs[n - 1].as_str();
    let kind = if str_ends_with(name, ".dll") {
        "dll"
    } else if str_ends_with(name, ".lib") {
        "lib"
    } else {
        return None;
    };
    let width = if contains_segment(&segs, "x64") {
        "64"
    } else if contains_segment(&segs, "x86") {
        "32"
    } else {
        proof {
            assert(segs.deep_view() == segments_of(entry_path@));
        }
        return None;
    };
    let mut dest = destination_root.to_owned();
    crate::text::push_component(&mut dest, kind);
    crate::text::push_component(&mut dest, width);
    crate::text::push_component(&mut dest, name);
    proof {
        assert(segs.deep_view() == segments_of(entry_path@));
        assert(segments_of(entry_path@).last() == name@);
        assert(dest@ =~= dest_path(destination_root@, kind@, width@, name@));
    }
    Some(dest)
}

/// Whether one of `segs` equals `seg`, specified over the deep view.
fn contains_segment(segs: &Vec<String>, seg: &str) -> (r: bool)
    ensures
        r == segs.deep_view().contains(seg@),
{
    let mut i: usize = 0;
    while i < segs.len()
        invariant
            0 <= i <= segs.len(),
            forall|j: int| 0 <= j < i ==> segs.deep_view()[j] != seg@,
        decreases segs.len() - i,
    {
        if str_eq(segs[i].as_str(), seg) {
            proof {
                assert(segs.deep_view()[i as int] == seg@);
            }
            return true;
        }
        i = i + 1;
    }
    proof {
        assert forall|j: int| 0 <= j < segs.deep_view().len() implies segs.deep_view()[j] != seg@
            by {}
    }
    false
}

} // verus!
