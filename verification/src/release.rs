//! The latest release as the remote host describes it, and the decision
//! whether it must be installed.

use vstd::prelude::*;
use vstd::string::*;
use crate::error::{ErrorKind, ErrorView, UpdateError};
use crate::json::{json_integer_at, json_integer_member, json_string_at, json_string_member};
use crate::utility::{option_view, Version, VersionView};

verus! {

/// The header value by which the engine names itself to the remote host.
pub const USER_AGENT: &'static str = "rust-auto-update";

/// A release: its opaque identifier, its tag, and the address of its
/// archives up to the platform's suffix.
#[derive(Debug, PartialEq, Eq)]
pub struct ReleaseDescriptor {
    pub remote_id: usize,
    pub tag: String,
    pub download_url: String,
}

/// The mathematical value of a [`ReleaseDescriptor`].
pub ghost struct ReleaseView {
    pub remote_id: usize,
    pub tag: Seq<char>,
    pub download_url: Seq<char>,
}

impl View for ReleaseDescriptor {
    type V = ReleaseView;

    open spec fn view(&self) -> ReleaseView {
        ReleaseView { remote_id: self.remote_id, tag: self.tag@, download_url: self.download_url@ }
    }
}

/// The address that describes the latest release of `owner`'s `repo`.
pub open spec fn latest_release_address(owner: Seq<char>, repo: Seq<char>) -> Seq<char> {
    "https://api.github.com/repos/"@ + owner + "/"@ + repo + "/releases/latest"@
}

/// The address of the archives of the release `tag`, up to the suffix that
/// tells the platforms apart.
pub open spec fn download_address(owner: Seq<char>, repo: Seq<char>, tag: Seq<char>) -> Seq<char> {
    "https://github.com/"@ + owner + "/"@ + repo + "/releases/download/"@ + tag + "/"@ + repo
        + "_"@ + tag + "_"@
}

/// The release that the members `id` and `tag` of a description stand for:
/// none unless both are there and `id` is a non-negative machine index.
pub open spec fn release_of(
    owner: Seq<char>,
    repo: Seq<char>,
    id: Option<i64>,
    tag: Option<Seq<char>>,
) -> Option<ReleaseView> {
    if id is Some && tag is Some && 0 <= id.unwrap() <= usize::MAX {
        Some(
            ReleaseView {
                remote_id: id.unwrap() as usize,
                tag: tag.unwrap(),
                download_url: download_address(owner, repo, tag.unwrap()),
            },
        )
    } else {
        None
    }
}

/// The release that the description `body` of `owner`'s `repo` stands for.
pub open spec fn described_release(owner: Seq<char>, repo: Seq<char>, body: Seq<char>) -> Option<
    ReleaseView,
> {
    release_of(owner, repo, json_integer_at(body, "id"@), json_string_at(body, "tag_name"@))
}

/// The failure of a description that is no release.
pub open spec fn malformed_release() -> ErrorView {
    ErrorView { kind: ErrorKind::MalformedRelease, subject: Seq::empty() }
}

/// Whether `result` is the outcome owed for `expected`: the release, or the
/// failure `MalformedRelease` where there is none.
pub open spec fn is_release_outcome(
    result: Result<ReleaseDescriptor, UpdateError>,
    expected: Option<ReleaseView>,
) -> bool {
    match expected {
        Some(release) => result is Ok && result->Ok_0@ == release,
        None => result is Err && result->Err_0@ == malformed_release(),
    }
}

/// The address to ask for the latest release of `owner`'s `repo`.
pub fn latest_release_url(owner: &str, repo: &str) -> (url: String)
    ensures
        url@ == latest_release_address(owner@, repo@),
{
    let mut url = "https://api.github.com/repos/".to_owned();
    url.append(owner);
    url.append("/");
    url.append(repo);
    url.append("/releases/latest");
    url
}

impl ReleaseDescriptor {
    /// Builds the release of `owner`'s `repo` from the two members of its
    /// description. Fails with `MalformedRelease` when a member is missing
    /// or the identifier is negative or too large for this machine.
    pub fn from_fields(owner: &str, repo: &str, id: Option<i64>, tag: Option<String>) -> (result:
        Result<ReleaseDescriptor, UpdateError>)
        ensures
            is_release_outcome(result, release_of(owner@, repo@, id, option_view(tag))),
    {
        match (id, tag) {
            (Some(number), Some(tag)) => {
                if number < 0 || number as u64 > usize::MAX as u64 {
                    return Err(UpdateError::bare(ErrorKind::MalformedRelease));
                }
                let mut url = "https://github.com/".to_owned();
                url.append(owner);
                url.append("/");
                url.append(repo);
                url.append("/releases/download/");
                url.append(tag.as_str());
                url.append("/");
                url.append(repo);
                url.append("_");
                url.append(tag.as_str());
                url.append("_");
                Ok(ReleaseDescriptor { remote_id: number as usize, tag, download_url: url })
            },
            _ => Err(UpdateError::bare(ErrorKind::MalformedRelease)),
        }
    }

    /// The address of this release's archive for the platform whose
    /// archive-name suffix is `suffix`.
    pub fn asset_url(&self, suffix: &str) -> (url: String)
        ensures
            url@ == self@.download_url + suffix@,
    {
        let mut url = self.download_url.clone();
        url.append(suffix);
        url
    }

    /// The version record of a tool on which this release is installed.
    pub fn installed_version(&self) -> (record: Version)
        ensures
            record@ == installed_record(self@),
    {
        Version { id: self.remote_id, label: self.tag.clone() }
    }
}

impl Clone for ReleaseDescriptor {
    fn clone(&self) -> (copy: ReleaseDescriptor)
        ensures
            copy@ == self@,
    {
        ReleaseDescriptor {
            remote_id: self.remote_id,
            tag: self.tag.clone(),
            download_url: self.download_url.clone(),
        }
    }
}

/// The version record of a tool on which `release` is installed.
pub open spec fn installed_record(release: ReleaseView) -> VersionView {
    VersionView { id: release.remote_id, label: release.tag }
}

/// Reads the description `body` that the remote host gave of the latest
/// release of `owner`'s `repo`. Fails with `MalformedRelease` when `body` is
/// no JSON document or lacks an integer `id` or a string `tag_name`.
pub fn parse_release(owner: &str, repo: &str, body: &str) -> (result: Result<
    ReleaseDescriptor,
    UpdateError,
>)
    ensures
        is_release_outcome(result, described_release(owner@, repo@, body@)),
{
    let id = json_integer_member(body, "id");
    let tag = json_string_member(body, "tag_name");
    ReleaseDescriptor::from_fields(owner, repo, id, tag)
}

/// Whether `remote` must be installed over `local`: whenever the two
/// identifiers differ. Identifiers are opaque, so an older release that the
/// remote host went back to is installed like a newer one.
pub fn needs_update(local: &Version, remote: &ReleaseDescriptor) -> (needed: bool)
    ensures
        needed == (local@.id != remote@.remote_id),
{
    local.id != remote.remote_id
}

} // verus!
