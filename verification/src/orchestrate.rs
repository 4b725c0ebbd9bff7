use vstd::prelude::*;
use vstd::string::StringExecFns;

use crate::archive::ArchiveFormat;
use crate::text::ends_with;
use crate::text::has_substring;
use crate::text::lemma_has_substring_trans;
use crate::text::push_component;
use crate::text::split_at_char;
use crate::text::str_contains;
use crate::text::str_ends_with;
use crate::text::str_eq;
use crate::text::str_split;

verus! {

/// Which compiler ABI a set of prebuilt binaries targets.
#[derive(Clone, Copy, Debug, PartialEq, Eq, Structural)]
pub enum Toolchain {
    Msvc,
    GnuMingw,
}

/// The directory name of a toolchain's destination subtree.
pub open spec fn toolchain_dir_name(tc: Toolchain) -> Seq<char> {
    match tc {
        Toolchain::Msvc => "msvc"@,
        Toolchain::GnuMingw => "gnu-mingw"@,
    }
}

impl Toolchain {
    /// The directory name of this toolchain's destination subtree.
    pub fn dir_name(&self) -> (r: &'static str)
        ensures
            r@ == toolchain_dir_name(*self),
    {
        match self {
            Toolchain::Msvc => "msvc",
            Toolchain::GnuMingw => "gnu-mingw",
        }
    }
}

/// One fixed download: the archive's URL, a human label for messages, the
/// toolchain whose subtree its artifacts populate, and its container format.
#[derive(Debug)]
pub struct DownloadSpec {
    pub url: String,
    pub label: String,
    pub toolchain: Toolchain,
    pub format: ArchiveFormat,
}

impl DownloadSpec {
    /// The toolchain-named directory under `manifest_dir` that this
    /// download's archive is extracted into.
    pub fn extraction_root(&self, manifest_dir: &str) -> (r: String)
        ensures
            r@ == manifest_dir@ + "/"@ + toolchain_dir_name(self.toolchain),
    {
        let mut out = manifest_dir.to_owned();
        push_component(&mut out, self.toolchain.dir_name());
        out
    }
}

/// The six fixed downloads: the SDL2, SDL2_image and SDL2_ttf development
/// archives, each for the MSVC toolchain (zip) and the GNU cross toolchain
/// (gzip-compressed tar), in this order.
pub open spec fn is_download_table(s: Seq<DownloadSpec>) -> bool {
    &&& s.len() == 6
    &&& s[0].url@ == "http://www.libsdl.org/release/SDL2-devel-2.0.6-VC.zip"@
    &&& s[0].label@ == "sdl2 VC"@
    &&& s[0].toolchain is Msvc
    &&& s[0].format is Zip
    &&& s[1].url@ == "http://www.libsdl.org/release/SDL2-devel-2.0.6-mingw.tar.gz"@
    &&& s[1].label@ == "sdl2 mingw"@
    &&& s[1].toolchain is GnuMingw
    &&& s[1].format is TarGz
    &&& s[2].url@
        == "http://www.libsdl.org/projects/SDL_image/release/SDL2_image-devel-2.0.1-VC.zip"@
    &&& s[2].label@ == "sdl2_image VC"@
    &&& s[2].toolchain is Msvc
    &&& s[2].format is Zip
    &&& s[3].url@
        == "http://www.libsdl.org/projects/SDL_image/release/SDL2_image-devel-2.0.1-mingw.tar.gz"@
    &&& s[3].label@ == "sdl2_image mingw"@
    &&& s[3].toolchain is GnuMingw
    &&& s[3].format is TarGz
    &&& s[4].url@
        == "http://www.libsdl.org/projects/SDL_ttf/release/SDL2_ttf-devel-2.0.14-VC.zip"@
    &&& s[4].label@ == "sdl2_ttf VC"@
    &&& s[4].toolchain is Msvc
    &&& s[4].format is Zip
    &&& s[5].url@
        == "http://www.libsdl.org/projects/SDL_ttf/release/SDL2_ttf-devel-2.0.14-mingw.tar.gz"@
    &&& s[5].label@ == "sdl2_ttf mingw"@
    &&& s[5].toolchain is GnuMingw
    &&& s[5].format is TarGz
}

/// Builds the fixed download table.
pub fn download_specs() -> (r: Vec<DownloadSpec>)
    ensures
        is_download_table(r@),
{
    let mut specs: Vec<DownloadSpec> = Vec::new();
    specs.push(
        DownloadSpec {
            url: "http://www.libsdl.org/release/SDL2-devel-2.0.6-VC.zip".to_owned(),
            label: "sdl2 VC".to_owned(),
            toolchain: Toolchain::Msvc,
            format: ArchiveFormat::Zip,
        },
    );
    specs.push(
        DownloadSpec {
            url: "http://www.libsdl.org/release/SDL2-devel-2.0.6-mingw.tar.gz".to_owned(),
            label: "sdl2 mingw".to_owned(),
            toolchain: Toolchain::GnuMingw,
            format: ArchiveFormat::TarGz,
        },
    );
    specs.push(
        DownloadSpec {
            url:
            "http://www.libsdl.org/projects/SDL_image/release/SDL2_image-devel-2.0.1-VC.zip".to_owned(),
            label: "sdl2_image VC".to_owned(),
            toolchain: Toolchain::Msvc,
            format: ArchiveFormat::Zip,
        },
    );
    specs.push(
        DownloadSpec {
            url:
            "http://www.libsdl.org/projects/SDL_image/release/SDL2_image-devel-2.0.1-mingw.tar.gz".to_owned(),
            label: "sdl2_image mingw".to_owned(),
            toolchain: Toolchain::GnuMingw,
            format: ArchiveFormat::TarGz,
        },
    );
    specs.push(
        DownloadSpec {
            url:
            "http://www.libsdl.org/projects/SDL_ttf/release/SDL2_ttf-devel-2.0.14-VC.zip".to_owned(),
            label: "sdl2_ttf VC".to_owned(),
            toolchain: Toolchain::Msvc,
            format: ArchiveFormat::Zip,
        },
    );
    specs.push(
        DownloadSpec {
            url:
            "http://www.libsdl.org/projects/SDL_ttf/release/SDL2_ttf-devel-2.0.14-mingw.tar.gz".to_owned(),
            label: "sdl2_ttf mingw".to_owned(),
            toolchain: Toolchain::GnuMingw,
            format: ArchiveFormat::TarGz,
        },
    );
    specs
}

/// Whether a build-target triple denotes a Windows target at all.
pub open spec fn spec_is_windows_target(triple: Seq<char>) -> bool {
    has_substring(triple, "pc-windows"@)
}

/// Decides whether the target triple denotes a Windows target; on any other
/// target the whole build step has nothing to do.
pub fn is_windows_target(triple: &str) -> (r: bool)
    ensures
        r == spec_is_windows_target(triple@),
{
    str_contains(triple, "pc-windows")
}

/// The toolchain subtree a triple selects: `msvc` when the triple names the
/// MSVC ABI, else the GNU cross toolchain's `gnu-mingw`.
pub open spec fn toolchain_dir_spec(triple: Seq<char>) -> Seq<char> {
    if has_substring(triple, "msvc"@) {
        "msvc"@
    } else {
        "gnu-mingw"@
    }
}

/// The bit-width subtree a triple selects: `64` when the triple names the
/// x86_64 architecture, else `32`.
pub open spec fn width_dir_spec(triple: Seq<char>) -> Seq<char> {
    if has_substring(triple, "x86_64"@) {
        "64"@
    } else {
        "32"@
    }
}

/// Selects the toolchain subtree for a target triple.
pub fn toolchain_dir(triple: &str) -> (r: &'static str)
    ensures
        r@ == toolchain_dir_spec(triple@),
{
    if str_contains(triple, "msvc") {
        "msvc"
    } else {
        "gnu-mingw"
    }
}

/// Selects the bit-width subtree for a target triple.
pub fn width_dir(triple: &str) -> (r: &'static str)
    ensures
        r@ == width_dir_spec(triple@),
{
    if str_contains(triple, "x86_64") {
        "64"
    } else {
        "32"
    }
}

/// `<manifest_dir>/<toolchain>/<kind>/<width>` for the triple's selection.
pub open spec fn subtree_dir_spec(manifest_dir: Seq<char>, triple: Seq<char>, kind: Seq<char>) -> Seq<char> {
    manifest_dir + "/"@ + toolchain_dir_spec(triple) + "/"@ + kind + "/"@ + width_dir_spec(triple)
}

/// The toolchain- and width-selected subtree of `kind` (`lib` or `dll`)
/// under `manifest_dir`.
pub fn subtree_dir(manifest_dir: &str, triple: &str, kind: &str) -> (r: String)
    ensures
        r@ == subtree_dir_spec(manifest_dir@, triple@, kind@),
{
    let mut out = manifest_dir.to_owned();
    push_component(&mut out, toolchain_dir(triple));
    push_component(&mut out, kind);
    push_component(&mut out, width_dir(triple));
    proof {
        assert(out@ =~= subtree_dir_spec(manifest_dir@, triple@, kind@));
    }
    out
}

/// A triple naming the 64-bit MSVC Windows platform is a Windows target and
/// selects the `msvc` toolchain subtree and the 64-bit width.
pub proof fn lemma_selection_msvc_64(triple: Seq<char>)
    requires
        has_substring(triple, "x86_64-pc-windows-msvc"@),
    ensures
        spec_is_windows_target(triple),
        toolchain_dir_spec(triple) == "msvc"@,
        width_dir_spec(triple) == "64"@,
{
    reveal_strlit("x86_64-pc-windows-msvc");
    reveal_strlit("msvc");
    reveal_strlit("x86_64");
    reveal_strlit("pc-windows");
    let t = "x86_64-pc-windows-msvc"@;
    assert(t.subrange(18, 18 + "msvc"@.len() as int) =~= "msvc"@);
    assert(has_substring(t, "msvc"@));
    assert(t.subrange(0, 0 + "x86_64"@.len() as int) =~= "x86_64"@);
    assert(has_substring(t, "x86_64"@));
    assert(t.subrange(7, 7 + "pc-windows"@.len() as int) =~= "pc-windows"@);
    assert(has_substring(t, "pc-windows"@));
    lemma_has_substring_trans(triple, t, "msvc"@);
    lemma_has_substring_trans(triple, t, "x86_64"@);
    lemma_has_substring_trans(triple, t, "pc-windows"@);
}

/// A triple naming the 32-bit GNU Windows platform — and not naming the MSVC
/// ABI or the x86_64 architecture anywhere else — is a Windows target and
/// selects the `gnu-mingw` toolchain subtree and the 32-bit width.
pub proof fn lemma_selection_gnu_32(triple: Seq<char>)
    requires
        has_substring(triple, "i686-pc-windows-gnu"@),
        !has_substring(triple, "msvc"@),
        !has_substring(triple, "x86_64"@),
    ensures
        spec_is_windows_target(triple),
        toolchain_dir_spec(triple) == "gnu-mingw"@,
        width_dir_spec(triple) == "32"@,
{
    reveal_strlit("i686-pc-windows-gnu");
    reveal_strlit("pc-windows");
    let t = "i686-pc-windows-gnu"@;
    assert(t.subrange(5, 5 + "pc-windows"@.len() as int) =~= "pc-windows"@);
    assert(has_substring(t, "pc-windows"@));
    lemma_has_substring_trans(triple, t, "pc-windows"@);
}

/// The container format a downloaded archive's filename announces: its
/// extension — whatever follows the last `.` — is `zip` for a zip container
/// and `gz` for a gzip-compressed tar; any other name is left alone.
pub open spec fn format_of_filename(name: Seq<char>) -> Option<ArchiveFormat> {
    let segs = split_at_char(name, '.');
    if segs.len() < 2 {
        None
    } else if segs.last() == "zip"@ {
        Some(ArchiveFormat::Zip)
    } else if segs.last() == "gz"@ {
        Some(ArchiveFormat::TarGz)
    } else {
        None
    }
}

/// Reads the container format off a downloaded archive's filename.
pub fn archive_format_of(name: &str) -> (r: Option<ArchiveFormat>)
    ensures
        r == format_of_filename(name@),
{
    let segs = str_split(name, '.');
    if segs.len() < 2 {
        return None;
    }
    let last = segs[segs.len() - 1].as_str();
    proof {
        assert(segs.deep_view()[segs@.len() - 1] == last@);
    }
    if str_eq(last, "zip") {
        Some(ArchiveFormat::Zip)
    } else if str_eq(last, "gz") {
        Some(ArchiveFormat::TarGz)
    } else {
        None
    }
}

/// Whether a file in the selected `dll` subtree is a runtime dynamic library
/// that must be copied next to the build output.
pub fn runtime_library_wanted(filename: &str) -> (r: bool)
    ensures
        r == ends_with(filename@, ".dll"@),
{
    str_ends_with(filename, ".dll")
}

/// Everything one build step must do for a Windows target: where archives
/// are cached, the six downloads, the linker directive to emit, and the
/// subtree whose dynamic libraries are copied into the output root.
#[derive(Debug)]
pub struct BuildPlan {
    /// Scratch directory the archives are cached in.
    pub download_dir: String,
    /// The six fetch-and-extract jobs, in order.
    pub specs: Vec<DownloadSpec>,
    /// The linker-search-path line to hand to the build tool.
    pub link_directive: String,
    /// The subtree whose `.dll` files are copied into the output root.
    pub dll_dir: String,
    /// The root the runtime libraries are copied into, flat.
    pub output_root: String,
}

/// Decides the whole build step for one target. On a non-Windows triple the
/// result is `None`: nothing is downloaded, extracted, copied or emitted, and
/// the step succeeds doing nothing. On a Windows triple the plan fixes every
/// path and directive from the triple and the manifest directory alone.
pub fn plan_build(target_triple: &str, manifest_dir: &str) -> (r: Option<BuildPlan>)
    ensures
        r is Some <==> spec_is_windows_target(target_triple@),
        match r {
            Some(p) => {
                &&& p.download_dir@ == manifest_dir@ + "/target/downloads"@
                &&& is_download_table(p.specs@)
                &&& p.link_directive@ == "cargo:rustc-link-search=all="@ + subtree_dir_spec(
                    manifest_dir@,
                    target_triple@,
                    "lib"@,
                )
                &&& p.dll_dir@ == subtree_dir_spec(manifest_dir@, target_triple@, "dll"@)
                &&& p.output_root@ == manifest_dir@
            },
            None => true,
        },
{
    if !is_windows_target(target_triple) {
        return None;
    }
    let mut download_dir = manifest_dir.to_owned();
    download_dir.append("/target/downloads");
    let mut link_directive = "cargo:rustc-link-search=all=".to_owned();
    let lib_dir = subtree_dir(manifest_dir, target_triple, "lib");
    link_directive.append(lib_dir.as_str());
    Some(
        BuildPlan {
            download_dir,
            specs: download_specs(),
            link_directive,
            dll_dir: subtree_dir(manifest_dir, target_triple, "dll"),
            output_root: manifest_dir.to_owned(),
        },
    )
}

} // verus!
