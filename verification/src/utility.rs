//! Platforms, the version record, and the store that keeps it between runs.

use vstd::prelude::*;
use crate::error::{ErrorKind, UpdateError};
use crate::process::{process_type_of, ProcessType};
use crate::text::str_eq;

verus! {

/// The platform an executable runs on.
#[derive(Clone, Copy, Debug, PartialEq, Eq, Hash, Structural)]
pub enum OsType {
    Windows,
    Linux,
    MacOs,
    Unsupported,
}

/// The platform that the identifier `name` stands for.
pub open spec fn os_type_of(name: Seq<char>) -> OsType {
    if name == "linux"@ {
        OsType::Linux
    } else if name == "windows"@ {
        OsType::Windows
    } else if name == "macos"@ {
        OsType::MacOs
    } else {
        OsType::Unsupported
    }
}

/// Maps a platform identifier such as `"linux"`, `"windows"` or `"macos"` to
/// its platform; every other identifier is unsupported.
pub fn get_os(name: &str) -> (os: OsType)
    ensures
        os == os_type_of(name@),
{
    if str_eq(name, "linux") {
        OsType::Linux
    } else if str_eq(name, "windows") {
        OsType::Windows
    } else if str_eq(name, "macos") {
        OsType::MacOs
    } else {
        OsType::Unsupported
    }
}

impl OsType {
    /// The replacement behaviour of this platform.
    pub open spec fn family(self) -> ProcessType {
        match self {
            OsType::Windows => ProcessType::Windows,
            OsType::Linux | OsType::MacOs => ProcessType::Unix,
            OsType::Unsupported => ProcessType::Unsupported,
        }
    }

    /// The replacement behaviour of this platform.
    pub fn process_type(self) -> (kind: ProcessType)
        ensures
            kind == self.family(),
    {
        match self {
            OsType::Windows => ProcessType::Windows,
            OsType::Linux | OsType::MacOs => ProcessType::Unix,
            OsType::Unsupported => ProcessType::Unsupported,
        }
    }

    /// Whether a staged executable must carry the loader's file suffix:
    /// on Windows only.
    pub fn requires_executable_extension(self) -> (needed: bool)
        ensures
            needed == (self == OsType::Windows),
    {
        self == OsType::Windows
    }

    /// Whether a staged executable must be given the execute permission:
    /// on the Unix-like platforms only.
    pub fn requires_executable_permission(self) -> (needed: bool)
        ensures
            needed == (self == OsType::Linux || self == OsType::MacOs),
    {
        self == OsType::Linux || self == OsType::MacOs
    }
}

/// The two classifications of a platform identifier agree: the family of
/// the platform that an identifier stands for is the family that the
/// identifier is classified as.
pub proof fn lemma_family_agrees_with_identifier(name: Seq<char>)
    ensures
        os_type_of(name).family() == process_type_of(name),
{
    reveal_strlit("linux");
    reveal_strlit("macos");
    reveal_strlit("windows");
    assert("linux"@[0] != "macos"@[0]);
    assert("linux"@.len() != "windows"@.len());
    assert("macos"@.len() != "windows"@.len());
}

/// The installed build: the release identifier, 0 while nothing was ever
/// installed, and the release's tag.
#[derive(Debug, PartialEq, Eq)]
pub struct Version {
    pub id: usize,
    pub label: String,
}

/// The mathematical value of a [`Version`].
pub ghost struct VersionView {
    pub id: usize,
    pub label: Seq<char>,
}

impl View for Version {
    type V = VersionView;

    open spec fn view(&self) -> VersionView {
        VersionView { id: self.id, label: self.label@ }
    }
}

/// The record of a tool that was never installed.
pub open spec fn unset_version() -> VersionView {
    VersionView { id: 0, label: "unset"@ }
}

impl Default for Version {
    fn default() -> (v: Version)
        ensures
            v@ == unset_version(),
    {
        Version { id: 0, label: "unset".to_owned() }
    }
}

impl Clone for Version {
    fn clone(&self) -> (v: Version)
        ensures
            v@ == self@,
    {
        Version { id: self.id, label: self.label.clone() }
    }
}

/// The document kept in the state file: one table, `version`.
#[derive(Debug, PartialEq, Eq)]
pub struct Data {
    pub version: Version,
}

impl View for Data {
    type V = VersionView;

    open spec fn view(&self) -> VersionView {
        self.version@
    }
}

/// What the state file was found to hold.
#[derive(Debug, PartialEq, Eq)]
pub enum VersionStore {
    /// There is no state file.
    Absent,
    /// The state file holds this record.
    Holding(Version),
    /// The state file cannot be read as a record.
    Corrupt,
}

/// The mathematical value of a [`VersionStore`].
pub ghost enum StoreModel {
    Absent,
    Holding(VersionView),
    Corrupt,
}

impl View for VersionStore {
    type V = StoreModel;

    open spec fn view(&self) -> StoreModel {
        match self {
            VersionStore::Absent => StoreModel::Absent,
            VersionStore::Holding(v) => StoreModel::Holding(v@),
            VersionStore::Corrupt => StoreModel::Corrupt,
        }
    }
}

/// The store after a load: a missing file has been created with the record
/// of a tool that was never installed; anything else is left as it is.
pub open spec fn store_after_load(store: StoreModel) -> StoreModel {
    match store {
        StoreModel::Absent => StoreModel::Holding(unset_version()),
        _ => store,
    }
}

/// What a load returns: the record held, the unset record for a missing
/// file, and no record for a corrupt one.
pub open spec fn loaded_version(store: StoreModel) -> Option<VersionView> {
    match store {
        StoreModel::Absent => Some(unset_version()),
        StoreModel::Holding(v) => Some(v),
        StoreModel::Corrupt => None,
    }
}

/// The store after `record` was saved: it holds `record`, whatever it held.
pub open spec fn store_after_save(store: StoreModel, record: VersionView) -> StoreModel {
    StoreModel::Holding(record)
}

impl Clone for VersionStore {
    fn clone(&self) -> (copy: VersionStore)
        ensures
            copy@ == self@,
    {
        match self {
            VersionStore::Absent => VersionStore::Absent,
            VersionStore::Holding(v) => VersionStore::Holding(v.clone()),
            VersionStore::Corrupt => VersionStore::Corrupt,
        }
    }
}

impl VersionStore {
    /// Whether a load would have to create the state file.
    pub fn is_absent(&self) -> (absent: bool)
        ensures
            absent == (self@ == StoreModel::Absent),
    {
        match self {
            VersionStore::Absent => true,
            _ => false,
        }
    }
}

/// Loads the installed version. A missing state file is no failure: the
/// store then holds the unset record, which is returned. A corrupt file
/// fails with `ConfigCorrupt` and stays as it is.
pub fn get_version(store: &mut VersionStore) -> (loaded: Result<Version, UpdateError>)
    ensures
        final(store)@ == store_after_load(old(store)@),
        match loaded_version(old(store)@) {
            Some(v) => loaded is Ok && loaded->Ok_0@ == v,
            None => loaded is Err && loaded->Err_0@ == UpdateError::corrupt_config(),
        },
{
    match store {
        VersionStore::Absent => {
            *store = VersionStore::Holding(Version::default());
            Ok(Version::default())
        },
        VersionStore::Holding(v) => Ok(v.clone()),
        VersionStore::Corrupt => Err(UpdateError::bare(ErrorKind::ConfigCorrupt)),
    }
}

/// Saves `record`: the store holds it from now on, whatever it held before.
pub fn set_version(store: &mut VersionStore, record: Version)
    ensures
        final(store)@ == store_after_save(old(store)@, record@),
{
    *store = VersionStore::Holding(record);
}

/// What is saved is what the next load returns, and that load changes
/// nothing.
pub proof fn lemma_save_then_load(store: StoreModel, record: VersionView)
    ensures
        loaded_version(store_after_save(store, record)) == Some(record),
        store_after_load(store_after_save(store, record)) == store_after_save(store, record),
{
}

/// A load after a load returns the same record and changes nothing.
pub proof fn lemma_load_is_idempotent(store: StoreModel)
    ensures
        store_after_load(store_after_load(store)) == store_after_load(store),
        loaded_version(store_after_load(store)) == loaded_version(store),
{
}

/// The archive-name suffix configured for each platform.
#[derive(Debug, PartialEq, Eq)]
pub struct AssetMap {
    windows: Option<String>,
    linux: Option<String>,
    macos: Option<String>,
    unsupported: Option<String>,
}

/// The characters of an optional string.
pub open spec fn option_view(s: Option<String>) -> Option<Seq<char>> {
    match s {
        Some(text) => Some(text@),
        None => None,
    }
}

impl AssetMap {
    /// The suffix configured for `os`, if any.
    pub closed spec fn suffix(&self, os: OsType) -> Option<Seq<char>> {
        match os {
            OsType::Windows => option_view(self.windows),
            OsType::Linux => option_view(self.linux),
            OsType::MacOs => option_view(self.macos),
            OsType::Unsupported => option_view(self.unsupported),
        }
    }
}

impl View for AssetMap {
    type V = Map<OsType, Seq<char>>;

    open spec fn view(&self) -> Map<OsType, Seq<char>> {
        Map::new(|os: OsType| self.suffix(os) is Some, |os: OsType| self.suffix(os).unwrap())
    }
}

/// The suffix that `assets` holds for `platform`, if it holds one.
pub open spec fn suffix_for(platform: OsType, assets: Map<OsType, Seq<char>>) -> Option<Seq<char>> {
    if assets.contains_key(platform) {
        Some(assets[platform])
    } else {
        None
    }
}

impl AssetMap {
    /// A map with no suffix for any platform.
    pub fn new() -> (assets: AssetMap)
        ensures
            assets@ == Map::<OsType, Seq<char>>::empty(),
    {
        let assets = AssetMap { windows: None, linux: None, macos: None, unsupported: None };
        assert(assets@ =~= Map::<OsType, Seq<char>>::empty());
        assets
    }

    /// Sets the suffix of `os` to `suffix`, in place of an earlier one.
    pub fn insert(&mut self, os: OsType, suffix: &str)
        ensures
            final(self)@ == old(self)@.insert(os, suffix@),
    {
        let value = Some(suffix.to_owned());
        match os {
            OsType::Windows => { self.windows = value; },
            OsType::Linux => { self.linux = value; },
            OsType::MacOs => { self.macos = value; },
            OsType::Unsupported => { self.unsupported = value; },
        }
        assert(self@ =~= old(self)@.insert(os, suffix@));
    }
}

impl Clone for AssetMap {
    fn clone(&self) -> (copy: AssetMap)
        ensures
            copy@ == self@,
    {
        let copy = AssetMap {
            windows: self.windows.clone(),
            linux: self.linux.clone(),
            macos: self.macos.clone(),
            unsupported: self.unsupported.clone(),
        };
        assert(copy@ =~= self@);
        copy
    }
}

/// Looks up the archive-name suffix configured for `platform`. `None` means
/// that no archive exists for this platform, which the caller reports.
pub fn asset_suffix_for<'a>(platform: OsType, assets: &'a AssetMap) -> (found: Option<&'a String>)
    ensures
        option_ref_view(found) == suffix_for(platform, assets@),
{
    let slot = match platform {
        OsType::Windows => &assets.windows,
        OsType::Linux => &assets.linux,
        OsType::MacOs => &assets.macos,
        OsType::Unsupported => &assets.unsupported,
    };
    slot.as_ref()
}

/// The characters of an optional borrowed string.
pub open spec fn option_ref_view(s: Option<&String>) -> Option<Seq<char>> {
    match s {
        Some(text) => Some(text@),
        None => None,
    }
}

} // verus!
