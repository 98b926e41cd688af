use rust_launcher::archive::{extract_executable, select_payload};
use rust_launcher::error::ErrorKind;
use std::io::Write;

fn archive_of(entries: &[(&str, &[u8])]) -> Vec<u8> {
    let mut writer = zip::ZipWriter::new(std::io::Cursor::new(Vec::new()));
    for (name, bytes) in entries {
        writer
            .start_file(*name, zip::write::SimpleFileOptions::default())
            .unwrap();
        writer.write_all(bytes).unwrap();
    }
    writer.finish().unwrap().into_inner()
}

#[test]
fn single_entry_is_extracted() {
    let payload = b"\x7fELF dummy executable".to_vec();
    let archive = archive_of(&[("tool", &payload)]);
    assert_ne!(archive, payload);
    assert_eq!(extract_executable(&archive), Ok(payload));
}

#[test]
fn large_compressible_entry_is_extracted_whole() {
    let payload: Vec<u8> = (0..200_000usize).map(|i| (i % 7) as u8).collect();
    let archive = archive_of(&[("tool.exe", &payload)]);
    assert!(archive.len() < payload.len());
    assert_eq!(extract_executable(&archive), Ok(payload));
}

#[test]
fn single_empty_entry_is_extracted_as_no_bytes() {
    let archive = archive_of(&[("tool", b"")]);
    assert_eq!(extract_executable(&archive), Ok(Vec::new()));
}

#[test]
fn empty_archive_is_corrupt() {
    let archive = archive_of(&[]);
    let error = extract_executable(&archive).unwrap_err();
    assert_eq!(error.kind, ErrorKind::CorruptArchive);
    assert_eq!(error.subject, "");
}

#[test]
fn archive_with_several_entries_is_corrupt() {
    let archive = archive_of(&[("tool", b"first"), ("README", b"second")]);
    assert_eq!(
        extract_executable(&archive).unwrap_err().kind,
        ErrorKind::CorruptArchive
    );
}

#[test]
fn bytes_that_are_no_archive_are_corrupt() {
    for bytes in [&b""[..], &b"PK"[..], &b"plain text, no container"[..], &[0u8; 64][..]] {
        assert_eq!(
            extract_executable(bytes).unwrap_err().kind,
            ErrorKind::CorruptArchive
        );
    }
}

#[test]
fn truncated_archive_is_corrupt() {
    let archive = archive_of(&[("tool", b"some payload that is long enough to matter")]);
    let cut = &archive[..archive.len() / 2];
    assert_eq!(
        extract_executable(cut).unwrap_err().kind,
        ErrorKind::CorruptArchive
    );
}

#[test]
fn payload_is_selected_only_from_a_single_readable_entry() {
    assert_eq!(select_payload(Some(1), Some(vec![1, 2, 3])), Ok(vec![1, 2, 3]));
    assert_eq!(select_payload(Some(1), Some(vec![])), Ok(vec![]));
    for (count, first) in [
        (None, None),
        (None, Some(vec![1u8])),
        (Some(0), None),
        (Some(0), Some(vec![1u8])),
        (Some(2), Some(vec![1u8])),
        (Some(usize::MAX), Some(vec![1u8])),
        (Some(1), None),
    ] {
        let error = select_payload(count, first).unwrap_err();
        assert_eq!(error.kind, ErrorKind::CorruptArchive);
        assert_eq!(error.subject, "");
    }
}
