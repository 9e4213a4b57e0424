use apkext::archive::{extract_dex, unzip_file, LookupError};
use apkext::error::Error;
use std::io::Write;

fn archive(entries: &[(&str, &[u8])]) -> Vec<u8> {
    let mut writer = zip::ZipWriter::new(std::io::Cursor::new(Vec::new()));
    let options = zip::write::SimpleFileOptions::default();
    for (name, bytes) in entries {
        writer.start_file(*name, options).unwrap();
        writer.write_all(bytes).unwrap();
    }
    writer.finish().unwrap().into_inner()
}

#[test]
fn an_entry_is_read_by_its_name() {
    let bytes = archive(&[("a.txt", b"first"), ("b/c.txt", b"second"), ("d.bin", &[0, 1, 2])]);
    assert_eq!(unzip_file(bytes.clone(), "a.txt"), Ok(b"first".to_vec()));
    assert_eq!(unzip_file(bytes.clone(), "b/c.txt"), Ok(b"second".to_vec()));
    assert_eq!(unzip_file(bytes, "d.bin"), Ok(vec![0, 1, 2]));
}

#[test]
fn an_entry_is_not_the_archive_itself() {
    let bytes = archive(&[("classes.dex", b"payload")]);
    let payload = unzip_file(bytes.clone(), "classes.dex").unwrap();
    assert_ne!(payload, bytes);
    assert_eq!(payload, b"payload".to_vec());
}

#[test]
fn a_large_entry_is_decompressed_whole() {
    let big: Vec<u8> = (0..200_000u32).map(|i| (i % 251) as u8).collect();
    let bytes = archive(&[("small", b"x"), ("classes.dex", &big)]);
    assert!(bytes.len() < big.len());
    assert_eq!(extract_dex(bytes), Ok(big));
}

#[test]
fn an_empty_entry_is_found_empty() {
    let bytes = archive(&[("empty", b"")]);
    assert_eq!(unzip_file(bytes, "empty"), Ok(Vec::new()));
}

#[test]
fn a_name_is_matched_whole() {
    let bytes = archive(&[("lib/classes.dex", b"nested"), ("classes.dex.bak", b"backup")]);
    assert_eq!(
        unzip_file(bytes, "classes.dex"),
        Err(LookupError::NotFound { name: "classes.dex".to_string() })
    );
}

#[test]
fn a_missing_entry_is_reported_by_name() {
    let bytes = archive(&[("a.txt", b"first")]);
    let error = unzip_file(bytes, "b.txt").unwrap_err();
    assert_eq!(error, LookupError::NotFound { name: "b.txt".to_string() });
    assert_eq!(error.message(), "File b.txt not found in archive");
}

#[test]
fn an_empty_archive_holds_nothing() {
    let bytes = archive(&[]);
    assert_eq!(
        unzip_file(bytes, "classes.dex"),
        Err(LookupError::NotFound { name: "classes.dex".to_string() })
    );
}

#[test]
fn bytes_that_are_no_archive_are_turned_down() {
    let error = unzip_file(b"This is not an APK file".to_vec(), "classes.dex").unwrap_err();
    let LookupError::NotAnArchive { reason } = &error else {
        panic!("{error:?}");
    };
    assert!(!reason.is_empty());
    assert_eq!(&error.message(), reason);
    assert!(matches!(unzip_file(Vec::new(), "x"), Err(LookupError::NotAnArchive { .. })));
}

#[test]
fn the_payload_is_classes_dex() {
    let bytes = archive(&[("AndroidManifest.xml", b"<manifest/>"), ("classes.dex", b"dex 035")]);
    assert_eq!(extract_dex(bytes), Ok(b"dex 035".to_vec()));
}

#[test]
fn the_payload_falls_back_to_class_dex() {
    let bytes = archive(&[("AndroidManifest.xml", b"<manifest/>"), ("class.dex", b"old dex")]);
    assert_eq!(extract_dex(bytes), Ok(b"old dex".to_vec()));
}

#[test]
fn classes_dex_is_preferred_wherever_it_stands() {
    let bytes = archive(&[("class.dex", b"old dex"), ("classes.dex", b"new dex")]);
    assert_eq!(extract_dex(bytes), Ok(b"new dex".to_vec()));
    let bytes = archive(&[("classes.dex", b"new dex"), ("class.dex", b"old dex")]);
    assert_eq!(extract_dex(bytes), Ok(b"new dex".to_vec()));
}

#[test]
fn an_archive_without_payload_has_no_dex() {
    let bytes = archive(&[("AndroidManifest.xml", b"<manifest/>"), ("classes2.dex", b"second")]);
    let error = extract_dex(bytes).unwrap_err();
    assert_eq!(
        error,
        Error::DexMissing { reason: "File class.dex not found in archive".to_string() }
    );
    assert_eq!(error.message(), "DEX file not found: File class.dex not found in archive");
}

#[test]
fn bytes_that_are_no_archive_have_no_dex() {
    let error = extract_dex(b"This is not an APK file".to_vec()).unwrap_err();
    let Error::DexMissing { reason } = &error else {
        panic!("{error:?}");
    };
    assert!(!reason.is_empty());
    assert_eq!(error.message(), format!("DEX file not found: {reason}"));
}

#[test]
fn a_damaged_payload_is_not_handed_out() {
    let payload: Vec<u8> = (0..4096u32).map(|i| (i * 7 % 256) as u8).collect();
    let mut writer = zip::ZipWriter::new(std::io::Cursor::new(Vec::new()));
    let stored = zip::write::SimpleFileOptions::default()
        .compression_method(zip::CompressionMethod::Stored);
    writer.start_file("classes.dex", stored).unwrap();
    writer.write_all(&payload).unwrap();
    let mut bytes = writer.finish().unwrap().into_inner();
    let at = bytes.windows(8).position(|w| w == &payload[100..108]).unwrap();
    bytes[at] ^= 0xff;
    let error = unzip_file(bytes.clone(), "classes.dex").unwrap_err();
    assert!(matches!(error, LookupError::BrokenEntry { index: 0, .. }), "{error:?}");
    assert!(matches!(extract_dex(bytes), Err(Error::DexMissing { .. })));
}
