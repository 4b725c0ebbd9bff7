use download_sdl2::classify::classify;

#[test]
fn classify_dll_x64() {
    let r = classify("SDL2-2.0.6/lib/x64/SDL2.dll", "root").expect("wanted artifact");
    assert_eq!(r, "root/dll/64/SDL2.dll");
}

#[test]
fn classify_lib_x86() {
    let r = classify("SDL2-2.0.6/lib/x86/SDL2.lib", "root").expect("wanted artifact");
    assert_eq!(r, "root/lib/32/SDL2.lib");
}

#[test]
fn classify_lib_x64() {
    let r = classify("SDL2-2.0.6/lib/x64/SDL2.lib", "root").expect("wanted artifact");
    assert_eq!(r, "root/lib/64/SDL2.lib");
}

#[test]
fn classify_dll_x86() {
    let r = classify("SDL2-2.0.6/lib/x86/SDL2.dll", "root").expect("wanted artifact");
    assert_eq!(r, "root/dll/32/SDL2.dll");
}

#[test]
fn classify_no_width_dropped() {
    assert!(classify("SDL2-2.0.6/lib/arm/SDL2.dll", "root").is_none());
}

#[test]
fn classify_bare_lib_shape_accepted() {
    let r = classify("lib/x64/SDL2.dll", "root").expect("no leading component needed");
    assert_eq!(r, "root/dll/64/SDL2.dll");
}

#[test]
fn classify_deep_prefix_accepted() {
    let r = classify("extra/SDL2-2.0.6/lib/x64/SDL2.dll", "root")
        .expect("any number of leading components");
    assert_eq!(r, "root/dll/64/SDL2.dll");
}

#[test]
fn classify_not_lib_dropped() {
    assert!(classify("SDL2-2.0.6/include/x64/SDL2.dll", "root").is_none());
}

#[test]
fn classify_nested_below_width_dropped() {
    assert!(classify("SDL2-2.0.6/lib/x64/sub/SDL2.dll", "root").is_none());
}

#[test]
fn classify_two_segments_dropped() {
    assert!(classify("x64/SDL2.dll", "root").is_none());
}

#[test]
fn classify_other_extension_dropped() {
    assert!(classify("SDL2-2.0.6/lib/x64/README.txt", "root").is_none());
}

#[test]
fn classify_width_segment_anywhere() {
    let r = classify("x64/lib/extras/SDL2.dll", "root").expect("width segment counts anywhere");
    assert_eq!(r, "root/dll/64/SDL2.dll");
}

#[test]
fn classify_x64_beats_x86() {
    let r = classify("x86/lib/x64/SDL2.dll", "root").expect("wanted artifact");
    assert_eq!(r, "root/dll/64/SDL2.dll");
}
