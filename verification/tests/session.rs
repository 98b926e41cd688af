use rust_launcher::error::{ErrorKind, UpdateError};
use rust_launcher::protocol::{Action, Event, Phase, Stage};
use rust_launcher::release::ReleaseDescriptor;
use rust_launcher::update::{UpdateBuilder, UpdateSession};
use rust_launcher::utility::{OsType, Version, VersionStore};
use std::collections::BTreeMap;
use std::io::Write;

const RUNNING: &str = "bin/tool";

fn record(id: usize, label: &str) -> Version {
    Version { id, label: label.to_string() }
}

fn archive_of(entries: &[(&str, &[u8])]) -> Vec<u8> {
    let mut writer = zip::ZipWriter::new(std::io::Cursor::new(Vec::new()));
    for (name, bytes) in entries {
        writer
            .start_file(*name, zip::write::SimpleFileOptions::default())
            .unwrap();
        writer.write_all(bytes).unwrap();
    }
    writer.finish().unwrap().into_inner()
}

/// Everything outside the engine, held in memory.
struct World {
    state_file: Option<Version>,
    files: BTreeMap<String, Vec<u8>>,
    executable: Vec<String>,
    directories: Vec<String>,
    reachable: bool,
    go_offline: bool,
    release: Option<(u16, String)>,
    asset: Option<(u16, Vec<u8>)>,
    failing: Vec<&'static str>,
    log: Vec<String>,
    requests: Vec<(String, String)>,
}

impl World {
    fn new(state_file: Option<Version>) -> World {
        let mut files = BTreeMap::new();
        files.insert(RUNNING.to_string(), b"previous build".to_vec());
        World {
            state_file,
            files,
            executable: Vec::new(),
            directories: Vec::new(),
            reachable: true,
            go_offline: false,
            release: Some((200, "{\"id\": 7, \"tag_name\": \"v2\"}".to_string())),
            asset: Some((200, archive_of(&[("tool", b"dummy executable")]))),
            failing: Vec::new(),
            log: Vec::new(),
            requests: Vec::new(),
        }
    }

    fn store(&self) -> VersionStore {
        match &self.state_file {
            Some(version) => VersionStore::Holding(version.clone()),
            None => VersionStore::Absent,
        }
    }

    fn fails(&self, what: &str) -> bool {
        self.failing.iter().any(|name| *name == what)
    }

    fn rename(&mut self, from: &str, to: &str) -> Event {
        match self.files.remove(from) {
            Some(bytes) => {
                self.files.insert(to.to_string(), bytes);
                Event::Done
            }
            None => Event::Failed,
        }
    }

    fn perform(&mut self, action: Action) -> Option<Event> {
        match action {
            Action::Wait => panic!("the engine asked for nothing before the end"),
            Action::WriteState { record } => {
                self.log.push("write-state".to_string());
                if self.fails("write-state") {
                    return Some(Event::Failed);
                }
                self.state_file = Some(record);
                Some(Event::Done)
            }
            Action::CheckConnectivity => {
                self.log.push("check-connectivity".to_string());
                Some(Event::Connectivity { reachable: self.reachable })
            }
            Action::AskOfflineContinue => {
                self.log.push("ask-offline".to_string());
                Some(Event::OfflineDecision { proceed: self.go_offline })
            }
            Action::FetchRelease { url, user_agent } => {
                self.log.push("fetch-release".to_string());
                self.requests.push((url, user_agent));
                match &self.release {
                    Some((status, body)) => {
                        Some(Event::ReleaseResponse { status: *status, body: body.clone() })
                    }
                    None => Some(Event::Failed),
                }
            }
            Action::Download { url, archive_path, staging_dir, cache_dir } => {
                self.log.push("download".to_string());
                self.requests.push((url, String::new()));
                for directory in [staging_dir, cache_dir] {
                    if !self.directories.contains(&directory) {
                        self.directories.push(directory);
                    }
                }
                match &self.asset {
                    Some((200, bytes)) => {
                        self.files.insert(archive_path, bytes.clone());
                        Some(Event::AssetStored { status: 200 })
                    }
                    Some((status, _)) => Some(Event::AssetStored { status: *status }),
                    None => Some(Event::Failed),
                }
            }
            Action::ReadArchive { archive_path } => {
                self.log.push("read-archive".to_string());
                match self.files.get(&archive_path) {
                    Some(bytes) if !self.fails("read-archive") => {
                        Some(Event::ArchiveRead { bytes: bytes.clone() })
                    }
                    _ => Some(Event::Failed),
                }
            }
            Action::StageExecutable { name, payload, mark_executable } => {
                self.log.push("stage".to_string());
                if self.fails("stage") {
                    return Some(Event::Failed);
                }
                let path = format!("bin/{}", name);
                if mark_executable {
                    self.executable.push(path.clone());
                }
                self.files.insert(path, payload);
                Some(Event::Done)
            }
            Action::CacheOut { rollback_path } => {
                self.log.push("cache-out".to_string());
                if self.fails("cache-out") {
                    return Some(Event::Failed);
                }
                Some(self.rename(RUNNING, &rollback_path))
            }
            Action::Promote { staged_name } => {
                self.log.push("promote".to_string());
                if self.fails("promote") {
                    return Some(Event::Failed);
                }
                Some(self.rename(&format!("bin/{}", staged_name), RUNNING))
            }
            Action::Finish { discard } => {
                self.log.push("finish".to_string());
                if let Some(path) = discard {
                    self.files.remove(&path);
                }
                None
            }
        }
    }
}

fn session_on(platform: OsType, world: &World) -> UpdateSession {
    UpdateBuilder::new()
        .set_github_user("owner")
        .set_github_repo("tool")
        .set_binary_path(OsType::Windows, "win.zip")
        .set_binary_path(OsType::Linux, "linux.zip")
        .check_for_updates(platform, world.store())
}

fn drive(mut session: UpdateSession, world: &mut World) -> UpdateSession {
    let mut event = Event::Begin;
    for _ in 0..32 {
        let (next, action) = session.step(event);
        session = next;
        match world.perform(action) {
            Some(report) => event = report,
            None => return session,
        }
    }
    panic!("the engine did not come to an end");
}

fn failure(session: &UpdateSession) -> &UpdateError {
    match &session.stage {
        Stage::Failed { error } => error,
        other => panic!("the attempt did not fail: {:?}", other),
    }
}

#[test]
fn end_to_end_update_installs_the_new_release() {
    let mut world = World::new(Some(record(5, "v1")));
    let session = drive(session_on(OsType::Linux, &world), &mut world);

    assert_eq!(
        session.stage,
        Stage::Committed { previous: record(5, "v1"), installed: record(7, "v2") }
    );
    assert_eq!(session.phase(), Phase::Committed);
    assert!(session.is_finished());
    assert_eq!(session.store, VersionStore::Holding(record(7, "v2")));
    assert_eq!(world.state_file, Some(record(7, "v2")));
    assert_eq!(world.files.get(RUNNING), Some(&b"dummy executable".to_vec()));
    assert_eq!(
        world.files.get("version-cache/last"),
        Some(&b"previous build".to_vec())
    );
    assert_eq!(world.files.get("bin/tmp-tool"), None);
    assert_eq!(world.files.get("version-tmp/tool.zip"), None);
    assert_eq!(world.executable, vec!["bin/tmp-tool".to_string()]);
    assert_eq!(
        world.directories,
        vec!["version-tmp".to_string(), "version-cache".to_string()]
    );
    assert_eq!(
        world.log,
        vec![
            "check-connectivity",
            "fetch-release",
            "download",
            "read-archive",
            "stage",
            "cache-out",
            "promote",
            "write-state",
            "finish"
        ]
    );
    assert_eq!(
        world.requests,
        vec![
            (
                "https://api.github.com/repos/owner/tool/releases/latest".to_string(),
                "rust-auto-update".to_string()
            ),
            (
                "https://github.com/owner/tool/releases/download/v2/tool_v2_linux.zip".to_string(),
                String::new()
            ),
        ]
    );
}

#[test]
fn initial_install_creates_the_state_file_and_installs() {
    let mut world = World::new(None);
    let session = drive(session_on(OsType::Windows, &world), &mut world);

    assert_eq!(
        session.stage,
        Stage::Committed { previous: record(0, "unset"), installed: record(7, "v2") }
    );
    assert_eq!(world.state_file, Some(record(7, "v2")));
    assert_eq!(world.files.get(RUNNING), Some(&b"dummy executable".to_vec()));
    assert!(world.executable.is_empty());
    assert_eq!(world.log[0], "write-state");
    assert_eq!(world.log[1], "check-connectivity");
    assert_eq!(
        world.requests[1].0,
        "https://github.com/owner/tool/releases/download/v2/tool_v2_win.zip"
    );
}

#[test]
fn windows_stages_under_the_loader_suffix() {
    let world = World::new(Some(record(5, "v1")));
    let session = session_on(OsType::Windows, &world);
    let (session, _) = session.step(Event::Begin);
    let (session, _) = session.step(Event::Connectivity { reachable: true });
    let (session, _) = session.step(Event::ReleaseResponse {
        status: 200,
        body: "{\"id\": 7, \"tag_name\": \"v2\"}".to_string(),
    });
    let (session, action) = session.step(Event::AssetStored { status: 200 });
    assert_eq!(
        action,
        Action::ReadArchive { archive_path: "version-tmp/tool.zip".to_string() }
    );
    assert_eq!(session.phase(), Phase::Extracting);
    let (session, action) = session.step(Event::ArchiveRead {
        bytes: archive_of(&[("tool.exe", b"MZ dummy")]),
    });
    assert_eq!(
        action,
        Action::StageExecutable {
            name: "tmp-tool.exe".to_string(),
            payload: b"MZ dummy".to_vec(),
            mark_executable: false,
        }
    );
    assert_eq!(session.phase(), Phase::Extracting);
    let (session, action) = session.step(Event::Done);
    assert_eq!(
        action,
        Action::CacheOut { rollback_path: "version-cache/last".to_string() }
    );
    assert_eq!(session.phase(), Phase::Swapping);
    let (session, action) = session.step(Event::Done);
    assert_eq!(action, Action::Promote { staged_name: "tmp-tool.exe".to_string() });
    assert_eq!(session.phase(), Phase::Swapping);
    let (session, action) = session.step(Event::Done);
    assert_eq!(action, Action::WriteState { record: record(7, "v2") });
    assert_eq!(session.phase(), Phase::Swapping);
    assert_eq!(session.store, VersionStore::Holding(record(5, "v1")));
    let (session, action) = session.step(Event::Done);
    assert_eq!(
        action,
        Action::Finish { discard: Some("version-tmp/tool.zip".to_string()) }
    );
    assert_eq!(session.phase(), Phase::Committed);
}

#[test]
fn installed_release_that_is_the_latest_changes_nothing() {
    let mut world = World::new(Some(record(7, "v2")));
    let before = world.files.clone();
    let session = drive(session_on(OsType::Linux, &world), &mut world);

    assert_eq!(
        session.stage,
        Stage::UpToDate { local: record(7, "v2"), offline: false }
    );
    assert_eq!(session.phase(), Phase::UpToDate);
    assert!(session.is_finished());
    assert_eq!(world.log, vec!["check-connectivity", "fetch-release", "finish"]);
    assert_eq!(world.state_file, Some(record(7, "v2")));
    assert_eq!(session.store, VersionStore::Holding(record(7, "v2")));
    assert_eq!(world.files, before);
    assert_eq!(world.requests.len(), 1);
}

#[test]
fn latest_release_is_up_to_date_even_without_an_archive_for_the_platform() {
    let mut world = World::new(Some(record(7, "renamed since")));
    let session = drive(session_on(OsType::MacOs, &world), &mut world);
    assert_eq!(
        session.stage,
        Stage::UpToDate { local: record(7, "renamed since"), offline: false }
    );
}

#[test]
fn older_remote_release_is_installed_too() {
    let mut world = World::new(Some(record(9, "v3")));
    let session = drive(session_on(OsType::Linux, &world), &mut world);
    assert_eq!(
        session.stage,
        Stage::Committed { previous: record(9, "v3"), installed: record(7, "v2") }
    );
}

#[test]
fn initial_install_without_network_fails_and_writes_nothing() {
    let mut world = World::new(Some(record(0, "unset")));
    world.reachable = false;
    let before = world.files.clone();
    let session = drive(session_on(OsType::Linux, &world), &mut world);

    assert_eq!(
        failure(&session),
        &UpdateError::bare(ErrorKind::InitialInstallRequiresNetwork)
    );
    assert_eq!(session.phase(), Phase::Failed);
    assert_eq!(world.log, vec!["check-connectivity", "finish"]);
    assert_eq!(world.files, before);
    assert_eq!(world.state_file, Some(record(0, "unset")));
    assert!(world.requests.is_empty());
    assert!(world.directories.is_empty());
}

#[test]
fn missing_state_file_without_network_fails_after_creating_it() {
    let mut world = World::new(None);
    world.reachable = false;
    let session = drive(session_on(OsType::Linux, &world), &mut world);
    assert_eq!(
        failure(&session).kind,
        ErrorKind::InitialInstallRequiresNetwork
    );
    assert_eq!(world.log, vec!["write-state", "check-connectivity", "finish"]);
    assert_eq!(world.state_file, Some(record(0, "unset")));
    assert_eq!(session.store, VersionStore::Holding(record(0, "unset")));
}

#[test]
fn offline_with_an_install_asks_and_goes_on() {
    let mut world = World::new(Some(record(5, "v1")));
    world.reachable = false;
    world.go_offline = true;
    let before = world.files.clone();
    let session = drive(session_on(OsType::Linux, &world), &mut world);
    assert_eq!(
        session.stage,
        Stage::UpToDate { local: record(5, "v1"), offline: true }
    );
    assert_eq!(world.log, vec!["check-connectivity", "ask-offline", "finish"]);
    assert_eq!(world.files, before);
    assert_eq!(world.state_file, Some(record(5, "v1")));
}

#[test]
fn offline_with_an_install_can_be_declined() {
    let mut world = World::new(Some(record(5, "v1")));
    world.reachable = false;
    world.go_offline = false;
    let session = drive(session_on(OsType::Linux, &world), &mut world);
    assert_eq!(failure(&session), &UpdateError::bare(ErrorKind::UserAborted));
    assert_eq!(world.log, vec!["check-connectivity", "ask-offline", "finish"]);
    assert_eq!(world.state_file, Some(record(5, "v1")));
}

#[test]
fn corrupt_state_file_ends_the_attempt() {
    let session = UpdateBuilder::new()
        .set_github_user("owner")
        .set_github_repo("tool")
        .check_for_updates(OsType::Linux, VersionStore::Corrupt);
    let (session, action) = session.step(Event::Begin);
    assert_eq!(action, Action::Finish { discard: None });
    assert_eq!(failure(&session), &UpdateError::bare(ErrorKind::ConfigCorrupt));
    assert_eq!(session.store, VersionStore::Corrupt);
}

#[test]
fn state_file_that_cannot_be_created_ends_the_attempt() {
    let mut world = World::new(None);
    world.failing.push("write-state");
    let session = drive(session_on(OsType::Linux, &world), &mut world);
    assert_eq!(
        failure(&session),
        &UpdateError::bare(ErrorKind::PersistenceFailed)
    );
    assert_eq!(world.log, vec!["write-state", "finish"]);
    assert_eq!(session.store, VersionStore::Absent);
    assert_eq!(world.state_file, None);
}

#[test]
fn remote_that_answers_without_success_is_unavailable() {
    for status in [404u16, 500, 301, 0, 201] {
        let mut world = World::new(Some(record(5, "v1")));
        world.release = Some((status, "{\"id\": 7, \"tag_name\": \"v2\"}".to_string()));
        let session = drive(session_on(OsType::Linux, &world), &mut world);
        assert_eq!(
            failure(&session),
            &UpdateError::about(
                ErrorKind::RemoteUnavailable,
                "https://api.github.com/repos/owner/tool/releases/latest"
            )
        );
        assert_eq!(world.log, vec!["check-connectivity", "fetch-release", "finish"]);
    }
}

#[test]
fn remote_that_does_not_answer_is_unavailable() {
    let mut world = World::new(Some(record(5, "v1")));
    world.release = None;
    let session = drive(session_on(OsType::Linux, &world), &mut world);
    assert_eq!(
        failure(&session),
        &UpdateError::about(
            ErrorKind::RemoteUnavailable,
            "https://api.github.com/repos/owner/tool/releases/latest"
        )
    );
}

#[test]
fn description_without_tag_is_malformed() {
    let mut world = World::new(Some(record(5, "v1")));
    world.release = Some((200, "{\"id\": 7}".to_string()));
    let session = drive(session_on(OsType::Linux, &world), &mut world);
    assert_eq!(failure(&session), &UpdateError::bare(ErrorKind::MalformedRelease));
    assert_eq!(world.log, vec!["check-connectivity", "fetch-release", "finish"]);
    assert_eq!(world.state_file, Some(record(5, "v1")));
}

#[test]
fn platform_without_an_archive_is_unsupported() {
    let mut world = World::new(Some(record(5, "v1")));
    let session = drive(session_on(OsType::MacOs, &world), &mut world);
    assert_eq!(
        failure(&session),
        &UpdateError::bare(ErrorKind::UnsupportedPlatform)
    );
    assert_eq!(world.log, vec!["check-connectivity", "fetch-release", "finish"]);
    assert_eq!(world.requests.len(), 1);
}

#[test]
fn archive_that_is_not_served_is_unavailable() {
    for asset in [Some((404u16, Vec::new())), None] {
        let mut world = World::new(Some(record(5, "v1")));
        world.asset = asset;
        let session = drive(session_on(OsType::Linux, &world), &mut world);
        assert_eq!(
            failure(&session),
            &UpdateError::about(
                ErrorKind::AssetUnavailable,
                "https://github.com/owner/tool/releases/download/v2/tool_v2_linux.zip"
            )
        );
        assert_eq!(
            world.log,
            vec!["check-connectivity", "fetch-release", "download", "finish"]
        );
        assert_eq!(world.files.get(RUNNING), Some(&b"previous build".to_vec()));
        assert_eq!(world.state_file, Some(record(5, "v1")));
    }
}

#[test]
fn archive_with_two_entries_is_corrupt_and_is_removed() {
    let mut world = World::new(Some(record(5, "v1")));
    world.asset = Some((200, archive_of(&[("tool", b"a"), ("extra", b"b")])));
    let session = drive(session_on(OsType::Linux, &world), &mut world);
    assert_eq!(failure(&session), &UpdateError::bare(ErrorKind::CorruptArchive));
    assert_eq!(
        world.log,
        vec!["check-connectivity", "fetch-release", "download", "read-archive", "finish"]
    );
    assert_eq!(world.files.get("version-tmp/tool.zip"), None);
    assert_eq!(world.files.get(RUNNING), Some(&b"previous build".to_vec()));
}

#[test]
fn archive_that_cannot_be_read_is_corrupt() {
    let mut world = World::new(Some(record(5, "v1")));
    world.failing.push("read-archive");
    let session = drive(session_on(OsType::Linux, &world), &mut world);
    assert_eq!(failure(&session), &UpdateError::bare(ErrorKind::CorruptArchive));
}

#[test]
fn unknown_platform_with_an_archive_is_refused_before_staging() {
    let mut world = World::new(Some(record(5, "v1")));
    let session = UpdateBuilder::new()
        .set_github_user("owner")
        .set_github_repo("tool")
        .set_binary_path(OsType::Unsupported, "other.zip")
        .check_for_updates(OsType::Unsupported, world.store());
    let session = drive(session, &mut world);
    assert_eq!(
        failure(&session),
        &UpdateError::bare(ErrorKind::UnsupportedPlatform)
    );
    assert_eq!(
        world.log,
        vec!["check-connectivity", "fetch-release", "download", "read-archive", "finish"]
    );
    assert_eq!(world.files.get(RUNNING), Some(&b"previous build".to_vec()));
    assert_eq!(world.files.get("version-cache/last"), None);
}

#[test]
fn executable_that_cannot_be_staged_is_a_persistence_failure() {
    let mut world = World::new(Some(record(5, "v1")));
    world.failing.push("stage");
    let session = drive(session_on(OsType::Linux, &world), &mut world);
    assert_eq!(
        failure(&session),
        &UpdateError::about(ErrorKind::PersistenceFailed, "tmp-tool")
    );
    assert_eq!(world.files.get(RUNNING), Some(&b"previous build".to_vec()));
}

#[test]
fn failed_cache_out_leaves_the_running_executable() {
    let mut world = World::new(Some(record(5, "v1")));
    world.failing.push("cache-out");
    let session = drive(session_on(OsType::Linux, &world), &mut world);
    assert_eq!(
        failure(&session),
        &UpdateError::about(ErrorKind::PersistenceFailed, "version-cache/last")
    );
    assert_eq!(
        world.log,
        vec![
            "check-connectivity",
            "fetch-release",
            "download",
            "read-archive",
            "stage",
            "cache-out",
            "finish"
        ]
    );
    assert_eq!(world.files.get(RUNNING), Some(&b"previous build".to_vec()));
    assert_eq!(world.files.get("version-cache/last"), None);
    assert_eq!(world.state_file, Some(record(5, "v1")));
}

#[test]
fn failed_promotion_keeps_the_rollback_copy() {
    let mut world = World::new(Some(record(5, "v1")));
    world.failing.push("promote");
    let session = drive(session_on(OsType::Linux, &world), &mut world);

    assert_eq!(
        failure(&session),
        &UpdateError::about(ErrorKind::SwapIncomplete, "version-cache/last")
    );
    assert_eq!(
        world.files.get("version-cache/last"),
        Some(&b"previous build".to_vec())
    );
    assert_eq!(world.files.get(RUNNING), None);
    assert_eq!(world.files.get("bin/tmp-tool"), Some(&b"dummy executable".to_vec()));
    assert_eq!(world.state_file, Some(record(5, "v1")));
    assert_eq!(session.store, VersionStore::Holding(record(5, "v1")));
    assert_eq!(world.log.last().map(String::as_str), Some("finish"));
    assert!(!world.log.contains(&"write-state".to_string()));
}

#[test]
fn record_that_cannot_be_written_is_a_persistence_failure() {
    let mut world = World::new(Some(record(5, "v1")));
    world.failing.push("write-state");
    let session = drive(session_on(OsType::Linux, &world), &mut world);
    assert_eq!(
        failure(&session),
        &UpdateError::bare(ErrorKind::PersistenceFailed)
    );
    assert_eq!(session.store, VersionStore::Holding(record(5, "v1")));
    assert_eq!(world.state_file, Some(record(5, "v1")));
    assert_eq!(world.files.get(RUNNING), Some(&b"dummy executable".to_vec()));
}

#[test]
fn report_that_is_not_waited_for_changes_nothing() {
    let world = World::new(Some(record(5, "v1")));
    let session = session_on(OsType::Linux, &world);
    let (session, action) = session.step(Event::Done);
    assert_eq!(action, Action::Wait);
    assert_eq!(session.stage, Stage::Idle);
    let (session, action) = session.step(Event::Connectivity { reachable: true });
    assert_eq!(action, Action::Wait);
    assert_eq!(session.stage, Stage::Idle);

    let (session, action) = session.step(Event::Begin);
    assert_eq!(action, Action::CheckConnectivity);
    assert_eq!(session.stage, Stage::CheckingConnectivity { local: record(5, "v1") });
    assert_eq!(session.phase(), Phase::CheckingConnectivity);

    for unexpected in [
        Event::Begin,
        Event::Done,
        Event::Failed,
        Event::OfflineDecision { proceed: true },
        Event::AssetStored { status: 200 },
        Event::ArchiveRead { bytes: vec![1, 2, 3] },
        Event::ReleaseResponse { status: 200, body: "{}".to_string() },
    ] {
        let world = World::new(Some(record(5, "v1")));
        let (session, _) = session_on(OsType::Linux, &world).step(Event::Begin);
        let (session, action) = session.step(unexpected);
        assert_eq!(action, Action::Wait);
        assert_eq!(session.stage, Stage::CheckingConnectivity { local: record(5, "v1") });
    }

    let (session, action) = session.step(Event::Connectivity { reachable: true });
    assert_eq!(
        action,
        Action::FetchRelease {
            url: "https://api.github.com/repos/owner/tool/releases/latest".to_string(),
            user_agent: "rust-auto-update".to_string(),
        }
    );
    assert_eq!(session.phase(), Phase::ResolvingRelease);
    let (session, action) = session.step(Event::Connectivity { reachable: false });
    assert_eq!(action, Action::Wait);
    assert_eq!(session.stage, Stage::ResolvingRelease { local: record(5, "v1") });
}

#[test]
fn finished_attempt_stays_as_it_is() {
    let mut world = World::new(Some(record(5, "v1")));
    let mut session = drive(session_on(OsType::Linux, &world), &mut world);
    let end = Stage::Committed { previous: record(5, "v1"), installed: record(7, "v2") };
    for event in [
        Event::Begin,
        Event::Done,
        Event::Failed,
        Event::Connectivity { reachable: true },
        Event::OfflineDecision { proceed: false },
        Event::AssetStored { status: 200 },
        Event::ArchiveRead { bytes: Vec::new() },
        Event::ReleaseResponse { status: 200, body: "{\"id\": 9, \"tag_name\": \"v3\"}".to_string() },
    ] {
        let (next, action) = session.step(event);
        session = next;
        assert_eq!(action, Action::Wait);
        assert_eq!(session.stage, end);
        assert_eq!(session.store, VersionStore::Holding(record(7, "v2")));
    }
}

#[test]
fn download_stage_keeps_the_release_and_its_address() {
    let world = World::new(Some(record(5, "v1")));
    let (session, _) = session_on(OsType::Linux, &world).step(Event::Begin);
    let (session, _) = session.step(Event::Connectivity { reachable: true });
    let (session, action) = session.step(Event::ReleaseResponse {
        status: 200,
        body: "{\"id\": 7, \"tag_name\": \"v2\"}".to_string(),
    });
    let url = "https://github.com/owner/tool/releases/download/v2/tool_v2_linux.zip";
    assert_eq!(
        action,
        Action::Download {
            url: url.to_string(),
            archive_path: "version-tmp/tool.zip".to_string(),
            staging_dir: "version-tmp".to_string(),
            cache_dir: "version-cache".to_string(),
        }
    );
    assert_eq!(
        session.stage,
        Stage::Downloading {
            local: record(5, "v1"),
            release: ReleaseDescriptor {
                remote_id: 7,
                tag: "v2".to_string(),
                download_url: "https://github.com/owner/tool/releases/download/v2/tool_v2_"
                    .to_string(),
            },
            url: url.to_string(),
        }
    );
    assert_eq!(session.phase(), Phase::Downloading);
}
