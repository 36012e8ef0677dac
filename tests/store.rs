use subly::store::{DocumentTask, Outcome, Request, Stage};

const HOME: &str = "/Users/alice";
const ROOT: &str = "/Users/alice/Library/Mobile Documents/com~apple~CloudDocs";
const DIR: &str = "/Users/alice/Library/Mobile Documents/com~apple~CloudDocs/Subly";

fn task(request: Request, filename: &str, contents: &str) -> DocumentTask {
    DocumentTask::start(true, request, filename.to_string(), contents.to_string())
}

/// Runs a task to the container on a machine where every folder exists.
fn to_container(t: &mut DocumentTask) {
    t.on_home(Some(HOME.to_string()));
    assert_eq!(t.stage, Stage::CheckCloudRoot);
    assert_eq!(t.path(), ROOT);
    t.on_exists(true);
    assert_eq!(t.stage, Stage::CheckAppDir);
    assert_eq!(t.path(), DIR);
    t.on_exists(true);
}

#[test]
fn container_url_when_available() {
    let mut t = task(Request::ContainerUrl, "", "");
    assert_eq!(t.stage, Stage::LookUpHome);
    to_container(&mut t);
    assert_eq!(t.stage, Stage::Done);
    assert_eq!(t.url_reply(), Some(DIR.to_string()));
}

#[test]
fn container_is_created_when_missing() {
    let mut t = task(Request::ContainerUrl, "", "");
    t.on_home(Some(HOME.to_string()));
    t.on_exists(true);
    t.on_exists(false);
    assert_eq!(t.stage, Stage::CreateAppDir);
    assert_eq!(t.path(), DIR);
    t.on_created(true);
    assert_eq!(t.url_reply(), Some(DIR.to_string()));
}

#[test]
fn container_unavailable_without_home() {
    let mut t = task(Request::ContainerUrl, "", "");
    t.on_home(None);
    assert_eq!(t.stage, Stage::Done);
    assert_eq!(t.url_reply(), None);
}

#[test]
fn container_unavailable_without_cloud_folder() {
    let mut t = task(Request::Write, "a.json", "x");
    t.on_home(Some(HOME.to_string()));
    t.on_exists(false);
    assert_eq!(t.stage, Stage::Done);
    assert_eq!(t.write_reply(), Err("iCloud container not available".to_string()));
}

#[test]
fn container_unavailable_when_creation_fails() {
    let mut t = task(Request::Read, "a.json", "");
    t.on_home(Some(HOME.to_string()));
    t.on_exists(true);
    t.on_exists(false);
    t.on_created(false);
    assert_eq!(t.read_reply(), Err("iCloud container not available".to_string()));
}

#[test]
fn missing_document_reads_as_none() {
    let mut t = task(Request::Read, "missing.json", "");
    to_container(&mut t);
    assert_eq!(t.stage, Stage::CheckDocument);
    assert_eq!(t.path(), format!("{}/missing.json", DIR));
    t.on_exists(false);
    assert!(matches!(t.outcome, Outcome::Absent));
    assert_eq!(t.read_reply(), Ok(None));
}

#[test]
fn unsupported_platform_reports_unavailable() {
    for name in ["a.json", "missing.json", ""] {
        let w = DocumentTask::start(false, Request::Write, name.to_string(), "x".to_string());
        assert_eq!(w.stage, Stage::Done);
        assert_eq!(w.write_reply(), Err("iCloud not available on this platform".to_string()));
        let r = DocumentTask::start(false, Request::Read, name.to_string(), String::new());
        assert_eq!(r.read_reply(), Err("iCloud not available on this platform".to_string()));
    }
    let u = DocumentTask::start(false, Request::ContainerUrl, String::new(), String::new());
    assert_eq!(u.url_reply(), None);
}

#[test]
fn write_then_read_round_trip() {
    let mut w = task(Request::Write, "a.json", "x");
    to_container(&mut w);
    assert_eq!(w.stage, Stage::WriteDocument);
    let written_at = w.path();
    assert_eq!(written_at, format!("{}/a.json", DIR));
    assert_eq!(w.contents, "x");
    w.on_written(Ok(()));
    assert_eq!(w.write_reply(), Ok(()));

    let mut r = task(Request::Read, "a.json", "");
    to_container(&mut r);
    assert_eq!(r.path(), written_at);
    r.on_exists(true);
    assert_eq!(r.stage, Stage::ReadDocument);
    assert_eq!(r.path(), written_at);
    r.on_read(Ok("x".to_string()));
    assert_eq!(r.read_reply(), Ok(Some("x".to_string())));
}

#[test]
fn filesystem_errors_pass_through() {
    let mut w = task(Request::Write, "a.json", "x");
    to_container(&mut w);
    w.on_written(Err("permission denied".to_string()));
    assert_eq!(w.write_reply(), Err("permission denied".to_string()));

    let mut r = task(Request::Read, "a.json", "");
    to_container(&mut r);
    r.on_exists(true);
    r.on_read(Err("is a directory".to_string()));
    assert_eq!(r.read_reply(), Err("is a directory".to_string()));
}

#[test]
fn home_lookup_moves_the_task_on() {
    let mut t = task(Request::ContainerUrl, "", "");
    t.look_up_home();
    match t.home {
        Some(_) => assert_eq!(t.stage, Stage::CheckCloudRoot),
        None => {
            assert_eq!(t.stage, Stage::Done);
            assert_eq!(t.url_reply(), None);
        }
    }
}
