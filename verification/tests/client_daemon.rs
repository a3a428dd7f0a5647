use filedrop::client::{
    meta_url, screen, start, step, upload_form, upload_outcome, upload_url, ClientAction,
    FileStatus, UiEvent,
};
use filedrop::daemon::{
    download_url, on_announcement, on_answer, prompt_title, remote_addr, subscribe_url, DaemonStep,
};
use filedrop::localdata::{settle_localdata, LocalData};
use filedrop::model::EventData;
use filedrop::relay::ping_event;

fn announcement() -> EventData {
    EventData {
        filename: "photo.png".to_string(),
        file_id: 0x10,
        groupname: "Software".to_string(),
        group_id: 0,
        sender: "Thor".to_string(),
    }
}

#[test]
fn client_starts_by_loading_groups() {
    let t = start(Some("/tmp/a.txt".to_string()));
    assert!(matches!(t.status, FileStatus::LoadingMd));
    assert!(matches!(t.action, ClientAction::LoadMeta(Some(ref f)) if f == "/tmp/a.txt"));
}

#[test]
fn click_on_selected_file_uploads_to_selected_group() {
    let t = step(FileStatus::Selected("/tmp/a.txt".to_string()), UiEvent::ButtonPressed, 1, 2);
    assert!(matches!(t.status, FileStatus::Sending));
    assert!(matches!(t.action, ClientAction::Upload { ref filename, group: 1 } if filename == "/tmp/a.txt"));
}

#[test]
fn retry_after_failure_resends() {
    let t = step(
        FileStatus::Failed("/tmp/a.txt".to_string(), "boom".to_string()),
        UiEvent::ButtonPressed,
        0,
        1,
    );
    assert!(matches!(t.status, FileStatus::Sending));
    assert!(matches!(t.action, ClientAction::Upload { ref filename, group: 0 } if filename == "/tmp/a.txt"));
}

#[test]
fn busy_screens_ignore_clicks() {
    let t = step(FileStatus::Sending, UiEvent::ButtonPressed, 0, 0);
    assert!(matches!(t.status, FileStatus::Sending));
    assert!(matches!(t.action, ClientAction::Nothing));
    let t = step(FileStatus::LoadingMd, UiEvent::ButtonPressed, 0, 0);
    assert!(matches!(t.status, FileStatus::LoadingMd));
    assert!(matches!(t.action, ClientAction::Nothing));
}

#[test]
fn choosing_a_file_selects_it() {
    let t = step(FileStatus::Unselected, UiEvent::ButtonPressed, 0, 0);
    assert!(matches!(t.action, ClientAction::OpenFileDialog));
    let t = step(FileStatus::Unselected, UiEvent::FileChosen(Some("/x/y".to_string())), 0, 0);
    assert!(matches!(t.status, FileStatus::Selected(ref f) if f == "/x/y"));
    let t = step(FileStatus::Unselected, UiEvent::FileChosen(None), 0, 0);
    assert!(matches!(t.status, FileStatus::Unselected));
}

#[test]
fn success_leads_back_to_choosing() {
    let t = step(FileStatus::Success, UiEvent::ButtonPressed, 0, 0);
    assert!(matches!(t.status, FileStatus::Unselected));
    assert!(matches!(t.action, ClientAction::Nothing));
}

#[test]
fn failed_loading_retry_reloads_and_shows_sending() {
    let t = step(
        FileStatus::FailedMd(Some("/f".to_string()), "offline".to_string()),
        UiEvent::ButtonPressed,
        0,
        0,
    );
    assert!(matches!(t.status, FileStatus::Sending));
    assert!(matches!(t.action, ClientAction::LoadMeta(Some(ref f)) if f == "/f"));
}

#[test]
fn finished_uploads_report() {
    let t = step(
        FileStatus::Sending,
        UiEvent::UploadFinished { filename: "/f".to_string(), error: None },
        0,
        0,
    );
    assert!(matches!(t.status, FileStatus::Success));
    let t = step(
        FileStatus::Sending,
        UiEvent::UploadFinished { filename: "/f".to_string(), error: Some("refused".to_string()) },
        0,
        0,
    );
    assert!(matches!(t.status, FileStatus::Failed(ref f, ref e) if f == "/f" && e == "refused"));
}

#[test]
fn loaded_groups_show_the_start_file() {
    let t = step(FileStatus::LoadingMd, UiEvent::MetaLoaded { file: Some("/f".to_string()), error: None }, 0, 0);
    assert!(matches!(t.status, FileStatus::Selected(ref f) if f == "/f"));
    let t = step(FileStatus::LoadingMd, UiEvent::MetaLoaded { file: None, error: None }, 0, 0);
    assert!(matches!(t.status, FileStatus::Unselected));
    let t = step(
        FileStatus::LoadingMd,
        UiEvent::MetaLoaded { file: None, error: Some("offline".to_string()) },
        0,
        0,
    );
    assert!(matches!(t.status, FileStatus::FailedMd(None, ref e) if e == "offline"));
}

#[test]
fn screens_show_headings_and_buttons() {
    let s = screen(&FileStatus::Selected("/home/me/cat.png".to_string()));
    assert_eq!(s.heading, "Upload cat.png");
    assert_eq!(s.button.as_deref(), Some("upload"));
    assert!(s.picks_group);
    assert!(s.note.is_none());
    let s = screen(&FileStatus::Unselected);
    assert_eq!(s.heading, "Select file");
    assert_eq!(s.button.as_deref(), Some("file"));
    let s = screen(&FileStatus::Failed("/a".to_string(), "err".to_string()));
    assert_eq!(s.heading, "Failed");
    assert_eq!(s.button.as_deref(), Some("retry"));
    assert_eq!(s.note.as_deref(), Some("err"));
    let s = screen(&FileStatus::Sending);
    assert_eq!(s.heading, "Uploading");
    assert!(s.button.is_none());
    let s = screen(&FileStatus::Success);
    assert_eq!(s.heading, "Success");
    assert_eq!(s.button.as_deref(), Some("upload another"));
    let s = screen(&FileStatus::LoadingMd);
    assert_eq!(s.heading, "Loading meta");
    assert!(s.button.is_none());
    let s = screen(&FileStatus::FailedMd(None, "x".to_string()));
    assert_eq!(s.heading, "Failed loading meta");
    assert_eq!(s.note.as_deref(), Some("x"));
}

#[test]
fn client_addresses() {
    assert_eq!(upload_url(), "http://koebstoffer.info:3987/upload");
    assert_eq!(meta_url(5), "http://koebstoffer.info:3987/get_md/00000000-0000-0000-0000-000000000005");
}

#[test]
fn upload_form_fields() {
    let f = upload_form(0xabc, "Thor".to_string(), "/home/t/a.txt".to_string());
    assert_eq!(f.group_id, "00000000-0000-0000-0000-000000000abc");
    assert_eq!(f.sender, "Thor");
    assert_eq!(f.file_name, "/home/t/a.txt");
}

#[test]
fn upload_outcome_by_status() {
    assert_eq!(upload_outcome(200), None);
    assert_eq!(upload_outcome(204), None);
    assert_eq!(upload_outcome(299), None);
    assert_eq!(upload_outcome(300), Some("ResponseError { _status_code: 300 }".to_string()));
    assert_eq!(upload_outcome(404), Some("ResponseError { _status_code: 404 }".to_string()));
    assert_eq!(upload_outcome(199), Some("ResponseError { _status_code: 199 }".to_string()));
}

#[test]
fn daemon_addresses() {
    assert_eq!(remote_addr(None), "http://koebstoffer.info:3987/");
    assert_eq!(remote_addr(Some("http://localhost:3987/".to_string())), "http://localhost:3987/");
    assert_eq!(
        subscribe_url("http://h/", 1),
        "http://h/subscribe/00000000-0000-0000-0000-000000000001"
    );
    assert_eq!(
        download_url("http://h/", 0x10),
        "http://h/download/00000000-0000-0000-0000-000000000010"
    );
}

#[test]
fn download_url_ends_with_cached_name() {
    let url = download_url("http://h/", 0x936da01f_9abd_4d9d_80c7_02af85c822a8);
    let cached = filedrop::upload::cache_path(0x936da01f_9abd_4d9d_80c7_02af85c822a8);
    assert_eq!(url.split('/').last(), cached.split('/').last());
}

#[test]
fn daemon_ignores_pings() {
    assert!(matches!(on_announcement(&ping_event()), DaemonStep::Done));
}

#[test]
fn daemon_asks_about_announcements() {
    match on_announcement(&announcement()) {
        DaemonStep::Ask { filename, group, sender } => {
            assert_eq!(filename, "photo.png");
            assert_eq!(group, "Software");
            assert_eq!(sender, "Thor");
        }
        _ => panic!("expected a question"),
    }
}

#[test]
fn daemon_downloads_accepted_files_only() {
    match on_answer("http://h/", &announcement(), true) {
        DaemonStep::Download { url, filename } => {
            assert_eq!(url, "http://h/download/00000000-0000-0000-0000-000000000010");
            assert_eq!(filename, "photo.png");
        }
        _ => panic!("expected a download"),
    }
    assert!(matches!(on_answer("http://h/", &announcement(), false), DaemonStep::Done));
}

#[test]
fn prompt_title_names_sender_and_group() {
    assert_eq!(prompt_title("sender", "group"), "sender shared a file with group");
}

#[test]
fn stored_identity_is_kept() {
    let stored = LocalData { user_id: 9, username: "Bob".to_string() };
    let (d, write) = settle_localdata(Some(stored));
    assert_eq!(d.user_id, 9);
    assert_eq!(d.username, "Bob");
    assert!(!write);
}

#[test]
fn missing_identity_is_created_and_written() {
    let (d, write) = settle_localdata(None);
    assert!(write);
    assert_eq!(d.username, "New user!");
    assert_eq!(d.user_id & 0xF000_C000_0000_0000_0000, 0x4000_8000_0000_0000_0000);
    let fresh = LocalData::default();
    assert_eq!(fresh.username, "New user!");
}
