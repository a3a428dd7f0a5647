//! The server's handling of an uploaded multipart form: each part that carries a
//! file name is stored in the cache under a fresh id, announced to the subscribers
//! and removed from the cache an hour later.
use vstd::prelude::*;
use crate::ident::{uuid_new_v4, uuid_text, uuid_to_string, version_variant_mask};
use crate::model::{EventData, EventView};
use crate::text::{after_last_slash, joined, short_filename};

verus! {

/// Seconds an uploaded file stays in the cache.
pub const CACHE_LIFETIME_SECS: u64 = 3600;

/// The cache path of an uploaded file: `./cache/` followed by the id's text.
pub open spec fn cache_path_text(file_id: u128) -> Seq<char> {
    seq!['.', '/', 'c', 'a', 'c', 'h', 'e', '/'] + uuid_text(file_id)
}

/// Where an uploaded file is stored.
pub fn cache_path(file_id: u128) -> (path: String)
    ensures
        path@ == cache_path_text(file_id),
{
    let dir = "./cache/";
    proof {
        reveal_strlit("./cache/");
    }
    let id = uuid_to_string(file_id);
    joined(dir, id.as_str())
}

/// The name under which a part is stored and announced: the last component of its
/// file name. A part without a file name is skipped.
pub fn upload_target(file_name: Option<&str>) -> (target: Option<String>)
    ensures
        file_name is None ==> target is None,
        file_name matches Some(name) ==> (target matches Some(t) && t@ == after_last_slash(name@)),
{
    match file_name {
        Some(name) => Some(short_filename(name)),
        None => None,
    }
}

/// The group name every announced upload carries.
pub open spec fn upload_group_name() -> Seq<char> {
    seq!['S', 'o', 'f', 't', 'w', 'a', 'r', 'e']
}

/// The sender name every announced upload carries.
pub open spec fn upload_sender_name() -> Seq<char> {
    seq!['T', 'h', 'o', 'r']
}

/// The announcement of a stored upload: its name and id, the fixed group name and
/// sender, and the nil group id.
pub fn upload_event(filename: String, file_id: u128) -> (event: EventData)
    ensures
        event@ == (EventView {
            filename: filename@,
            file_id: file_id,
            groupname: upload_group_name(),
            group_id: 0,
            sender: upload_sender_name(),
        }),
{
    let group = "Software";
    let sender = "Thor";
    proof {
        reveal_strlit("Software");
        reveal_strlit("Thor");
        assert(group@ =~= upload_group_name());
        assert(sender@ =~= upload_sender_name());
    }
    EventData {
        filename,
        file_id,
        groupname: String::from_str(group),
        group_id: 0,
        sender: String::from_str(sender),
    }
}

/// Where an upload goes and how it is announced.
pub struct StoredUpload {
    pub file_id: u128,
    pub path: String,
    pub event: EventData,
}

/// The storage plan of an upload named `filename` that got the id `file_id`.
pub fn stored_upload(filename: String, file_id: u128) -> (plan: StoredUpload)
    ensures
        plan.file_id == file_id,
        plan.path@ == cache_path_text(file_id),
        plan.event@ == (EventView {
            filename: filename@,
            file_id: file_id,
            groupname: upload_group_name(),
            group_id: 0,
            sender: upload_sender_name(),
        }),
{
    let path = cache_path(file_id);
    let event = upload_event(filename, file_id);
    StoredUpload { file_id, path, event }
}

/// The storage plan of a new upload, under a fresh random version-4 id.
pub fn new_stored_upload(filename: String) -> (plan: StoredUpload)
    ensures
        plan.file_id & version_variant_mask() == 0x4000_8000_0000_0000_0000u128,
        plan.path@ == cache_path_text(plan.file_id),
        plan.event@ == (EventView {
            filename: filename@,
            file_id: plan.file_id,
            groupname: upload_group_name(),
            group_id: 0,
            sender: upload_sender_name(),
        }),
{
    let file_id: u128 = uuid_new_v4();
    stored_upload(filename, file_id)
}

/// The log line for a part whose bytes could not be read.
pub fn read_failure_message(filename: &str) -> (line: String)
    ensures
        line@ == "Failed to read bytes of "@ + filename@,
{
    joined("Failed to read bytes of ", filename)
}

/// The log line for an upload that could not be written to the cache.
pub fn save_failure_message(filename: &str, error: &str) -> (line: String)
    ensures
        line@ == "Failed to save "@ + filename@ + ": "@ + error@,
{
    let mut line = joined("Failed to save ", filename);
    line.append(": ");
    line.append(error);
    line
}

/// The log line for an announcement that could not be handed to the relay.
pub fn send_failure_message(error: &str) -> (line: String)
    ensures
        line@ == "Failed to send event: "@ + error@,
{
    joined("Failed to send event: ", error)
}

} // verus!
