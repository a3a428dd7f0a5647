use filedrop::groups::{
    create_group_begin, create_group_step, join_group_step, member_row, CreateEvent, CreateStep,
    JoinEvent, JoinStep, STATUS_CONFLICT, STATUS_OK,
};
use filedrop::model::{CreateGroupForm, EventData, JoinGroupForm};
use filedrop::relay::{is_ping, living_subscribers, ping_event, plan_announcement, Relay};
use filedrop::upload::{
    new_stored_upload, read_failure_message, save_failure_message, send_failure_message,
    stored_upload, upload_event, upload_target, CACHE_LIFETIME_SECS,
};

fn event(name: &str) -> EventData {
    EventData {
        filename: name.to_string(),
        file_id: 1,
        groupname: "g".to_string(),
        group_id: 2,
        sender: "s".to_string(),
    }
}

#[test]
fn ping_event_is_the_keep_alive() {
    let p = ping_event();
    assert_eq!(p.filename, "//PING");
    assert_eq!(p.file_id, 0);
    assert_eq!(p.group_id, 0);
    assert_eq!(p.groupname, "");
    assert_eq!(p.sender, "");
    assert!(is_ping(&p.filename));
}

#[test]
fn pings_are_not_logged() {
    let plan = plan_announcement(&ping_event(), true);
    assert!(!plan.log);
    assert!(plan.forward);
    let plan = plan_announcement(&event("photo.png"), true);
    assert!(plan.log);
}

#[test]
fn unencodable_announcements_are_not_forwarded() {
    let plan = plan_announcement(&event("photo.png"), false);
    assert!(!plan.forward);
    assert!(plan.log);
}

#[test]
fn only_accepting_subscribers_stay() {
    let living = living_subscribers(vec!['a', 'b', 'c', 'd'], &vec![true, false, true, false]);
    assert_eq!(living, vec!['a', 'c']);
}

#[test]
fn everyone_stays_when_all_accept() {
    let living = living_subscribers(vec![1, 2, 3], &vec![true, true, true]);
    assert_eq!(living, vec![1, 2, 3]);
}

#[test]
fn nobody_stays_when_all_fail() {
    let living = living_subscribers(vec![1, 2, 3], &vec![false, false, false]);
    assert!(living.is_empty());
}

#[test]
fn relay_round_keeps_delivered_in_order() {
    let mut relay = Relay::new();
    relay.add_subscriber("first");
    relay.add_subscriber("second");
    relay.add_subscriber("third");
    assert_eq!(relay.len(), 3);
    let subs = relay.take_all();
    assert_eq!(relay.len(), 0);
    relay.keep_delivered(subs, &vec![false, true, true]);
    assert_eq!(relay.take_all(), vec!["second", "third"]);
}

#[test]
fn upload_target_shortens_or_skips() {
    assert_eq!(upload_target(Some("../../etc/passwd")), Some("passwd".to_string()));
    assert_eq!(upload_target(Some("doc.pdf")), Some("doc.pdf".to_string()));
    assert_eq!(upload_target(None), None);
}

#[test]
fn upload_event_has_fixed_group_and_sender() {
    let e = upload_event("doc.pdf".to_string(), 42);
    assert_eq!(e.filename, "doc.pdf");
    assert_eq!(e.file_id, 42);
    assert_eq!(e.groupname, "Software");
    assert_eq!(e.group_id, 0);
    assert_eq!(e.sender, "Thor");
}

#[test]
fn stored_upload_path_matches_id() {
    let plan = stored_upload("a.txt".to_string(), 0xff);
    assert_eq!(plan.file_id, 0xff);
    assert_eq!(plan.path, "./cache/00000000-0000-0000-0000-0000000000ff");
    assert_eq!(plan.event.file_id, 0xff);
    assert_eq!(plan.event.filename, "a.txt");
}

#[test]
fn new_uploads_get_version_four_ids() {
    let a = new_stored_upload("a".to_string());
    let b = new_stored_upload("b".to_string());
    assert_eq!(a.file_id & 0xF000_C000_0000_0000_0000, 0x4000_8000_0000_0000_0000);
    assert_eq!(b.file_id & 0xF000_C000_0000_0000_0000, 0x4000_8000_0000_0000_0000);
    assert_ne!(a.file_id, b.file_id);
    assert_eq!(a.path, format!("./cache/{}", uuid::Uuid::from_u128(a.file_id)));
}

#[test]
fn cache_lifetime_is_an_hour() {
    assert_eq!(CACHE_LIFETIME_SECS, 3600);
}

#[test]
fn upload_log_lines() {
    assert_eq!(read_failure_message("a.txt"), "Failed to read bytes of a.txt");
    assert_eq!(save_failure_message("a.txt", "disk full"), "Failed to save a.txt: disk full");
    assert_eq!(send_failure_message("Closed"), "Failed to send event: Closed");
}

#[test]
fn member_row_prints_ids() {
    let row = member_row(1, 2);
    assert_eq!(row.group_id, "00000000-0000-0000-0000-000000000001");
    assert_eq!(row.user_id, "00000000-0000-0000-0000-000000000002");
}

#[test]
fn join_looks_up_first() {
    let form = JoinGroupForm { user_id: 2, group_id: 1 };
    match join_group_step(&form, JoinEvent::Received) {
        JoinStep::Lookup(row) => {
            assert_eq!(row.group_id, "00000000-0000-0000-0000-000000000001");
            assert_eq!(row.user_id, "00000000-0000-0000-0000-000000000002");
        }
        _ => panic!("expected a lookup"),
    }
}

#[test]
fn join_of_existing_member_conflicts() {
    let form = JoinGroupForm { user_id: 2, group_id: 1 };
    assert!(matches!(join_group_step(&form, JoinEvent::LookedUp { found: true }), JoinStep::Reply(409)));
    assert_eq!(STATUS_CONFLICT, 409);
}

#[test]
fn join_of_new_member_inserts_then_succeeds() {
    let form = JoinGroupForm { user_id: 2, group_id: 1 };
    match join_group_step(&form, JoinEvent::LookedUp { found: false }) {
        JoinStep::Insert(row) => {
            assert_eq!(row.group_id, "00000000-0000-0000-0000-000000000001");
            assert_eq!(row.user_id, "00000000-0000-0000-0000-000000000002");
        }
        _ => panic!("expected an insert"),
    }
    assert!(matches!(join_group_step(&form, JoinEvent::Inserted), JoinStep::Reply(200)));
    assert_eq!(STATUS_OK, 200);
}

#[test]
fn create_inserts_group_then_creator() {
    let form = CreateGroupForm { user_id: 3, name: "Friends".to_string() };
    let (id, first) = create_group_begin(&form);
    assert_eq!(id & 0xF000_C000_0000_0000_0000, 0x4000_8000_0000_0000_0000);
    match first {
        CreateStep::InsertGroup { name, id: text } => {
            assert_eq!(name, "Friends");
            assert_eq!(text, uuid::Uuid::from_u128(id).to_string());
        }
        _ => panic!("expected the group insert"),
    }
    match create_group_step(&form, 7, CreateEvent::GroupInserted) {
        CreateStep::InsertMember(row) => {
            assert_eq!(row.group_id, "00000000-0000-0000-0000-000000000007");
            assert_eq!(row.user_id, "00000000-0000-0000-0000-000000000003");
        }
        _ => panic!("expected the member insert"),
    }
    assert!(matches!(create_group_step(&form, 7, CreateEvent::MemberInserted), CreateStep::Reply(200)));
}
