use download_sdl2::errors::FetchError;
use download_sdl2::fetch::filename_for_url;
use download_sdl2::fetch::filename_from_path;
use download_sdl2::fetch::transfer_needed;

#[test]
fn filename_from_full_url() {
    let r = filename_for_url("http://www.libsdl.org/release/SDL2-devel-2.0.6-VC.zip");
    assert_eq!(r.expect("URL has a filename"), "SDL2-devel-2.0.6-VC.zip");
}

#[test]
fn filename_missing_path() {
    let r = filename_for_url("http://example.com");
    assert_eq!(r.expect_err("no path segments"), FetchError::PathParsing);
}

#[test]
fn filename_empty_final_segment() {
    let r = filename_for_url("http://example.com/dir/");
    assert_eq!(r.expect_err("empty final segment"), FetchError::PathParsing);
}

#[test]
fn filename_unparsable_url() {
    let r = filename_for_url("not a url at all");
    assert_eq!(r.expect_err("no URI parse"), FetchError::PathParsing);
}

#[test]
fn filename_from_path_segments() {
    assert_eq!(
        filename_from_path("/release/a.zip").expect("path has a filename"),
        "a.zip"
    );
    assert_eq!(
        filename_from_path("/").expect_err("empty segment"),
        FetchError::PathParsing
    );
}

#[test]
fn transfer_only_when_absent() {
    assert!(transfer_needed(false));
    assert!(!transfer_needed(true));
}
