//! The release archive: a zip container that holds the executable as its
//! single entry. Reading the container is the `zip` crate's work and is
//! taken on trust; the rule that picks the payload is verified.
//!
//! That an archive holds exactly one entry is a promise of whoever packages
//! the releases. This module checks the promise and infers nothing from an
//! archive that breaks it.

use vstd::prelude::*;
use crate::error::{ErrorKind, ErrorView, UpdateError};

verus! {

/// The number of entries that the `zip` crate finds in the container
/// `archive`: `None` when `archive` cannot be read as a zip container.
pub uninterp spec fn zip_entry_count(archive: Seq<u8>) -> Option<usize>;

/// The decompressed bytes of the entry at `index` of the container
/// `archive`, as the `zip` crate reads them: `None` when `archive` cannot be
/// read as a zip container, has no such entry, or the entry cannot be
/// decompressed to its end.
pub uninterp spec fn zip_entry_bytes(archive: Seq<u8>, index: usize) -> Option<Seq<u8>>;

/// Opens `archive` with `zip::ZipArchive::new` and asks `ZipArchive::len`
/// for the number of its entries. Trusted: the result is the named function
/// of the bytes; a container that does not open gives `None`.
#[verifier::external_body]
pub(crate) fn archive_entry_count(archive: &[u8]) -> (count: Option<usize>)
    ensures
        count == zip_entry_count(archive@),
{
    match zip::ZipArchive::new(std::io::Cursor::new(archive)) {
        Ok(container) => Some(container.len()),
        Err(_) => None,
    }
}

/// Opens `archive` with `zip::ZipArchive::new`, takes the entry at `index`
/// with `ZipArchive::by_index` and reads it to its end. Trusted: the result
/// is the named function of the bytes and the index; a container that does
/// not open, a missing entry and a failed read all give `None`.
#[verifier::external_body]
pub(crate) fn archive_entry(archive: &[u8], index: usize) -> (bytes: Option<Vec<u8>>)
    ensures
        payload_view(bytes) == zip_entry_bytes(archive@, index),
{
    let mut container = match zip::ZipArchive::new(std::io::Cursor::new(archive)) {
        Ok(container) => container,
        Err(_) => return None,
    };
    let mut entry = match container.by_index(index) {
        Ok(entry) => entry,
        Err(_) => return None,
    };
    let mut bytes = Vec::new();
    match std::io::Read::read_to_end(&mut entry, &mut bytes) {
        Ok(_) => Some(bytes),
        Err(_) => None,
    }
}

/// The bytes of an optional buffer.
pub open spec fn payload_view(bytes: Option<Vec<u8>>) -> Option<Seq<u8>> {
    match bytes {
        Some(buffer) => Some(buffer@),
        None => None,
    }
}

/// The payload of a container with `count` entries whose first entry reads
/// as `first`: the first entry, if it is the only one and can be read.
pub open spec fn single_payload(count: Option<usize>, first: Option<Seq<u8>>) -> Option<Seq<u8>> {
    if count == Some(1usize) {
        first
    } else {
        None
    }
}

/// The executable that the container `archive` holds.
pub open spec fn executable_in(archive: Seq<u8>) -> Option<Seq<u8>> {
    single_payload(zip_entry_count(archive), zip_entry_bytes(archive, 0))
}

/// The failure of an archive that holds no single readable payload.
pub open spec fn corrupt_archive() -> ErrorView {
    ErrorView { kind: ErrorKind::CorruptArchive, subject: Seq::empty() }
}

/// Whether `result` is the outcome owed for `expected`: the payload, or the
/// failure `CorruptArchive` where there is none.
pub open spec fn is_payload_outcome(result: Result<Vec<u8>, UpdateError>, expected: Option<Seq<u8>>) -> bool {
    match expected {
        Some(payload) => result is Ok && result->Ok_0@ == payload,
        None => result is Err && result->Err_0@ == corrupt_archive(),
    }
}

/// Picks the payload of a container from what was read of it: the number of
/// its entries and its first entry. An unreadable container, an empty one,
/// one with several entries and one whose entry cannot be read all fail with
/// `CorruptArchive`.
pub fn select_payload(count: Option<usize>, first: Option<Vec<u8>>) -> (result: Result<
    Vec<u8>,
    UpdateError,
>)
    ensures
        is_payload_outcome(result, single_payload(count, payload_view(first))),
{
    match (count, first) {
        (Some(1), Some(payload)) => Ok(payload),
        _ => Err(UpdateError::bare(ErrorKind::CorruptArchive)),
    }
}

/// Extracts the executable from the bytes of a release archive: the entry at
/// index 0 of a container that holds nothing else. Fails with
/// `CorruptArchive` otherwise.
pub fn extract_executable(archive: &[u8]) -> (result: Result<Vec<u8>, UpdateError>)
    ensures
        is_payload_outcome(result, executable_in(archive@)),
{
    let count = archive_entry_count(archive);
    let first = match count {
        Some(1) => archive_entry(archive, 0),
        _ => None,
    };
    select_payload(count, first)
}

} // verus!
