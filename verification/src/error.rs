//! The ways an update attempt can fail.

use vstd::prelude::*;
use crate::text::join2;

verus! {

/// What went wrong, as a tag that callers can branch on.
#[derive(Clone, Copy, Debug, PartialEq, Eq, Hash, Structural)]
pub enum ErrorKind {
    /// The local state file exists but cannot be read as a version record.
    ConfigCorrupt,
    /// A local file could not be written or moved.
    PersistenceFailed,
    /// The release metadata endpoint did not answer with success.
    RemoteUnavailable,
    /// The release metadata lacks the identifier or the tag.
    MalformedRelease,
    /// The release archive could not be downloaded.
    AssetUnavailable,
    /// The archive is damaged, empty, or holds more than the one payload.
    CorruptArchive,
    /// No replacement procedure or no archive exists for this platform.
    UnsupportedPlatform,
    /// The running executable was moved away and the new one did not take
    /// its place: nothing is installed until the rollback copy is restored.
    SwapIncomplete,
    /// Nothing is installed yet and the network cannot be reached.
    InitialInstallRequiresNetwork,
    /// The user declined to go on without a network.
    UserAborted,
}

/// A failure: its kind and, where there is one, the URL or path it concerns.
#[derive(Debug, PartialEq, Eq)]
pub struct UpdateError {
    pub kind: ErrorKind,
    pub subject: String,
}

/// The mathematical value of an [`UpdateError`].
pub ghost struct ErrorView {
    pub kind: ErrorKind,
    pub subject: Seq<char>,
}

impl View for UpdateError {
    type V = ErrorView;

    open spec fn view(&self) -> ErrorView {
        ErrorView { kind: self.kind, subject: self.subject@ }
    }
}

/// The sentence that names a kind of failure.
pub open spec fn kind_text(kind: ErrorKind) -> Seq<char> {
    match kind {
        ErrorKind::ConfigCorrupt => "the version file is corrupt"@,
        ErrorKind::PersistenceFailed => "a file could not be written"@,
        ErrorKind::RemoteUnavailable => "failed to retrieve latest release"@,
        ErrorKind::MalformedRelease => "the latest release is malformed"@,
        ErrorKind::AssetUnavailable => "failed to access installation binary"@,
        ErrorKind::CorruptArchive => "the release archive is corrupt"@,
        ErrorKind::UnsupportedPlatform => "unsupported operating system"@,
        ErrorKind::SwapIncomplete => "the executable was moved to the rollback copy and not replaced"@,
        ErrorKind::InitialInstallRequiresNetwork => "missing network connection for the initial install"@,
        ErrorKind::UserAborted => "aborted by the user"@,
    }
}

/// The message of a failure: a fixed prefix, the sentence of its kind and,
/// where the subject is not empty, the subject in angle brackets.
pub open spec fn message_of(e: ErrorView) -> Seq<char> {
    let head = "Update failed: "@ + kind_text(e.kind);
    if e.subject.len() == 0 {
        head
    } else {
        head + " <"@ + e.subject + ">"@
    }
}

impl Clone for UpdateError {
    fn clone(&self) -> (e: UpdateError)
        ensures
            e@ == self@,
    {
        UpdateError { kind: self.kind, subject: self.subject.clone() }
    }
}

impl ErrorKind {
    /// The sentence that names this kind.
    pub fn text(self) -> (out: &'static str)
        ensures
            out@ == kind_text(self),
    {
        match self {
            ErrorKind::ConfigCorrupt => "the version file is corrupt",
            ErrorKind::PersistenceFailed => "a file could not be written",
            ErrorKind::RemoteUnavailable => "failed to retrieve latest release",
            ErrorKind::MalformedRelease => "the latest release is malformed",
            ErrorKind::AssetUnavailable => "failed to access installation binary",
            ErrorKind::CorruptArchive => "the release archive is corrupt",
            ErrorKind::UnsupportedPlatform => "unsupported operating system",
            ErrorKind::SwapIncomplete => "the executable was moved to the rollback copy and not replaced",
            ErrorKind::InitialInstallRequiresNetwork => "missing network connection for the initial install",
            ErrorKind::UserAborted => "aborted by the user",
        }
    }
}

impl UpdateError {
    /// The failure of a state file that cannot be read as a record.
    pub open spec fn corrupt_config() -> ErrorView {
        ErrorView { kind: ErrorKind::ConfigCorrupt, subject: Seq::empty() }
    }

    /// A failure of the given kind that concerns no URL or path.
    pub fn bare(kind: ErrorKind) -> (e: UpdateError)
        ensures
            e@ == (ErrorView { kind, subject: Seq::empty() }),
    {
        UpdateError { kind, subject: String::new() }
    }

    /// A failure of the given kind that concerns `subject`.
    pub fn about(kind: ErrorKind, subject: &str) -> (e: UpdateError)
        ensures
            e@ == (ErrorView { kind, subject: subject@ }),
    {
        UpdateError { kind, subject: subject.to_owned() }
    }

    /// The human-readable message of this failure.
    pub fn message(&self) -> (out: String)
        ensures
            out@ == message_of(self@),
    {
        let head = join2("Update failed: ", self.kind.text());
        if self.subject.as_str().is_empty() {
            head
        } else {
            let opened = join2(head.as_str(), " <");
            let named = join2(opened.as_str(), self.subject.as_str());
            join2(named.as_str(), ">")
        }
    }
}

} // verus!
