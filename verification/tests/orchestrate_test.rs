use download_sdl2::archive::ArchiveFormat;
use download_sdl2::orchestrate::archive_format_of;
use download_sdl2::orchestrate::download_specs;
use download_sdl2::orchestrate::is_windows_target;
use download_sdl2::orchestrate::plan_build;
use download_sdl2::orchestrate::runtime_library_wanted;
use download_sdl2::orchestrate::toolchain_dir;
use download_sdl2::orchestrate::width_dir;
use download_sdl2::orchestrate::Toolchain;
use download_sdl2::text::path_join;
use download_sdl2::text::str_split;

#[test]
fn msvc_64_selection() {
    assert_eq!(toolchain_dir("x86_64-pc-windows-msvc"), "msvc");
    assert_eq!(width_dir("x86_64-pc-windows-msvc"), "64");
}

#[test]
fn gnu_32_selection() {
    assert_eq!(toolchain_dir("i686-pc-windows-gnu"), "gnu-mingw");
    assert_eq!(width_dir("i686-pc-windows-gnu"), "32");
}

#[test]
fn non_windows_plan_is_empty() {
    assert!(plan_build("x86_64-unknown-linux-gnu", "proj").is_none());
    assert!(plan_build("x86_64-apple-darwin", "proj").is_none());
}

#[test]
fn windows_plan_paths() {
    let plan = plan_build("x86_64-pc-windows-msvc", "proj").expect("Windows target gets a plan");
    assert_eq!(plan.download_dir, "proj/target/downloads");
    assert_eq!(plan.link_directive, "cargo:rustc-link-search=all=proj/msvc/lib/64");
    assert_eq!(plan.dll_dir, "proj/msvc/dll/64");
    assert_eq!(plan.output_root, "proj");
    assert_eq!(plan.specs.len(), 6);
}

#[test]
fn windows_gnu_plan_paths() {
    let plan = plan_build("i686-pc-windows-gnu", "proj").expect("Windows target gets a plan");
    assert_eq!(plan.link_directive, "cargo:rustc-link-search=all=proj/gnu-mingw/lib/32");
    assert_eq!(plan.dll_dir, "proj/gnu-mingw/dll/32");
}

#[test]
fn stable_triple_is_windows() {
    assert!(is_windows_target("stable-x86_64-pc-windows-msvc"));
    assert!(!is_windows_target("x86_64-unknown-linux-gnu"));
}

#[test]
fn download_table_fixed() {
    let specs = download_specs();
    assert_eq!(specs.len(), 6);
    assert_eq!(specs[0].url, "http://www.libsdl.org/release/SDL2-devel-2.0.6-VC.zip");
    assert_eq!(specs[0].label, "sdl2 VC");
    assert_eq!(specs[0].toolchain, Toolchain::Msvc);
    assert_eq!(specs[0].format, ArchiveFormat::Zip);
    assert_eq!(specs[1].url, "http://www.libsdl.org/release/SDL2-devel-2.0.6-mingw.tar.gz");
    assert_eq!(specs[1].toolchain, Toolchain::GnuMingw);
    assert_eq!(specs[1].format, ArchiveFormat::TarGz);
    assert_eq!(
        specs[2].url,
        "http://www.libsdl.org/projects/SDL_image/release/SDL2_image-devel-2.0.1-VC.zip"
    );
    assert_eq!(
        specs[3].url,
        "http://www.libsdl.org/projects/SDL_image/release/SDL2_image-devel-2.0.1-mingw.tar.gz"
    );
    assert_eq!(
        specs[4].url,
        "http://www.libsdl.org/projects/SDL_ttf/release/SDL2_ttf-devel-2.0.14-VC.zip"
    );
    assert_eq!(
        specs[5].url,
        "http://www.libsdl.org/projects/SDL_ttf/release/SDL2_ttf-devel-2.0.14-mingw.tar.gz"
    );
    assert_eq!(specs[5].label, "sdl2_ttf mingw");
}

#[test]
fn extraction_root_per_toolchain() {
    let specs = download_specs();
    assert_eq!(specs[0].extraction_root("proj"), "proj/msvc");
    assert_eq!(specs[1].extraction_root("proj"), "proj/gnu-mingw");
}

#[test]
fn format_from_filename() {
    assert_eq!(archive_format_of("SDL2-devel-2.0.6-VC.zip"), Some(ArchiveFormat::Zip));
    assert_eq!(archive_format_of("SDL2-devel-2.0.6-mingw.tar.gz"), Some(ArchiveFormat::TarGz));
    assert_eq!(archive_format_of("plainfile"), None);
    assert_eq!(archive_format_of("archive.rar"), None);
}

#[test]
fn runtime_copy_filter() {
    assert!(runtime_library_wanted("SDL2.dll"));
    assert!(!runtime_library_wanted("SDL2.lib"));
    assert!(!runtime_library_wanted("dll"));
}

#[test]
fn join_components() {
    assert_eq!(path_join("a/b", "c.dll"), "a/b/c.dll");
}

#[test]
fn split_on_slashes() {
    assert_eq!(str_split("a/b//c", '/'), vec!["a", "b", "", "c"]);
    assert_eq!(str_split("", '/'), vec![""]);
    assert_eq!(str_split("abc", '/'), vec!["abc"]);
}
