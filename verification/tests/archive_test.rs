use std::io::Write;

use download_sdl2::archive::extract_archive;
use download_sdl2::archive::extract_tar_gz;
use download_sdl2::archive::extract_zip;
use download_sdl2::archive::ArchiveFormat;
use download_sdl2::errors::FetchError;

fn sample_zip() -> Vec<u8> {
    let cursor = std::io::Cursor::new(Vec::new());
    let mut writer = zip::ZipWriter::new(cursor);
    let options = zip::write::SimpleFileOptions::default();
    writer
        .start_file("SDL2-2.0.6/lib/x64/SDL2.dll", options)
        .expect("start dll entry");
    writer.write_all(b"dll-bytes").expect("write dll entry");
    writer
        .start_file("SDL2-2.0.6/lib/x86/SDL2.lib", options)
        .expect("start lib entry");
    writer.write_all(b"lib-bytes").expect("write lib entry");
    writer
        .start_file("SDL2-2.0.6/README.txt", options)
        .expect("start readme entry");
    writer.write_all(b"docs").expect("write readme entry");
    writer.finish().expect("finish zip").into_inner()
}

fn sample_tar_gz() -> Vec<u8> {
    let mut builder = tar::Builder::new(Vec::new());
    let mut header = tar::Header::new_gnu();
    header.set_size(9);
    builder
        .append_data(&mut header, "SDL2-2.0.6/lib/x64/SDL2.dll", &b"dll-bytes"[..])
        .expect("append tar entry");
    let tar_bytes = builder.into_inner().expect("finish tar");
    let mut encoder =
        flate2::write::GzEncoder::new(Vec::new(), flate2::Compression::default());
    encoder.write_all(&tar_bytes).expect("gzip tar stream");
    encoder.finish().expect("finish gzip stream")
}

#[test]
fn zip_extraction_end_to_end() {
    let data = sample_zip();
    let actions = extract_zip(&data, "R").expect("readable zip");
    assert_eq!(actions.len(), 2);
    assert_eq!(actions[0].dest, "R/dll/64/SDL2.dll");
    assert_eq!(actions[0].data, b"dll-bytes");
    assert_eq!(actions[1].dest, "R/lib/32/SDL2.lib");
    assert_eq!(actions[1].data, b"lib-bytes");
}

#[test]
fn zip_garbage_rejected() {
    let r = extract_zip(&vec![1u8, 2, 3], "R");
    assert_eq!(r.expect_err("not a zip"), FetchError::ArchiveReadFailure);
}

#[test]
fn tar_gz_classify_only_produces_nothing() {
    let data = sample_tar_gz();
    let actions = extract_tar_gz(&data, "R", false).expect("readable tar.gz");
    assert!(actions.is_empty());
}

#[test]
fn tar_gz_copying_variant_materializes() {
    let data = sample_tar_gz();
    let actions = extract_tar_gz(&data, "R", true).expect("readable tar.gz");
    assert_eq!(actions.len(), 1);
    assert_eq!(actions[0].dest, "R/dll/64/SDL2.dll");
    assert_eq!(actions[0].data, b"dll-bytes");
}

#[test]
fn tar_gz_garbage_rejected() {
    let r = extract_tar_gz(&vec![0u8, 0, 0, 0], "R", false);
    assert_eq!(r.expect_err("not a gzip stream"), FetchError::ArchiveReadFailure);
}

#[test]
fn archive_dispatch_keeps_tar_gap() {
    let zip_data = sample_zip();
    let zip_actions = extract_archive(ArchiveFormat::Zip, &zip_data, "R").expect("readable zip");
    assert_eq!(zip_actions.len(), 2);
    let tar_data = sample_tar_gz();
    let tar_actions =
        extract_archive(ArchiveFormat::TarGz, &tar_data, "R").expect("readable tar.gz");
    assert!(tar_actions.is_empty());
}
