//! The notification daemon: where it listens, and what it does with each
//! announcement it receives.
use vstd::prelude::*;
use crate::ident::{uuid_text, uuid_to_string};
use crate::model::EventData;
use crate::relay::{is_ping, ping_name};
use crate::text::{after_last_slash, joined, law_short_name_after_separator};
use crate::ident::law_uuid_text_shape;
use crate::upload::cache_path_text;

verus! {

/// The server address used when none is configured.
pub open spec fn default_remote() -> Seq<char> {
    "http://koebstoffer.info:3987/"@
}

/// The server address: the configured one, or the default.
pub fn remote_addr(configured: Option<String>) -> (remote: String)
    ensures
        configured matches Some(c) ==> remote@ == c@,
        configured is None ==> remote@ == default_remote(),
{
    match configured {
        Some(c) => c,
        None => String::from_str("http://koebstoffer.info:3987/"),
    }
}

/// The address of the event stream for a user.
pub fn subscribe_url(remote: &str, user_id: u128) -> (url: String)
    ensures
        url@ == remote@ + "subscribe/"@ + uuid_text(user_id),
{
    let mut url = joined(remote, "subscribe/");
    let id = uuid_to_string(user_id);
    url.append(id.as_str());
    url
}

/// The address an announced file is downloaded from.
pub fn download_url(remote: &str, file_id: u128) -> (url: String)
    ensures
        url@ == remote@ + "download/"@ + uuid_text(file_id),
{
    let mut url = joined(remote, "download/");
    let id = uuid_to_string(file_id);
    url.append(id.as_str());
    url
}

/// The title and heading of the download prompt.
pub fn prompt_title(sender: &str, group: &str) -> (title: String)
    ensures
        title@ == sender@ + " shared a file with "@ + group@,
{
    let mut title = joined(sender, " shared a file with ");
    title.append(group);
    title
}

/// What the daemon does next with an announcement.
#[derive(Debug)]
pub enum DaemonStep {
    /// Nothing more.
    Done,
    /// Ask the user whether to download the file.
    Ask { filename: String, group: String, sender: String },
    /// Download `url` into the download folder under `filename`, then open it.
    Download { url: String, filename: String },
}

/// The first step for a received announcement: keep-alive pings are dropped, any other
/// announcement is shown to the user with its file name, group name and sender.
pub fn on_announcement(data: &EventData) -> (step: DaemonStep)
    ensures
        data.filename@ == ping_name() ==> step is Done,
        data.filename@ != ping_name() ==> (step matches DaemonStep::Ask { filename, group, sender }
            && filename@ == data.filename@ && group@ == data.groupname@ && sender@ == data.sender@),
{
    if is_ping(data.filename.as_str()) {
        DaemonStep::Done
    } else {
        DaemonStep::Ask {
            filename: data.filename.clone(),
            group: data.groupname.clone(),
            sender: data.sender.clone(),
        }
    }
}

/// The step after the user answered: an accepted file is downloaded from the server
/// at `remote` under its announced name; a declined one is dropped.
pub fn on_answer(remote: &str, data: &EventData, accepted: bool) -> (step: DaemonStep)
    ensures
        !accepted ==> step is Done,
        accepted ==> (step matches DaemonStep::Download { url, filename }
            && url@ == remote@ + "download/"@ + uuid_text(data.file_id)
            && filename@ == data.filename@),
{
    if accepted {
        DaemonStep::Download {
            url: download_url(remote, data.file_id),
            filename: data.filename.clone(),
        }
    } else {
        DaemonStep::Done
    }
}

/// The file the daemon downloads is the one the server stored: the last component of
/// the download address of an announced id is the file name of that id in the cache,
/// which is the id's text.
pub proof fn law_download_names_cached_file(remote: Seq<char>, file_id: u128)
    ensures
        after_last_slash(remote + "download/"@ + uuid_text(file_id)) == after_last_slash(
            cache_path_text(file_id),
        ),
        after_last_slash(cache_path_text(file_id)) == uuid_text(file_id),
{
    reveal_strlit("download/");
    law_uuid_text_shape(file_id);
    let t = uuid_text(file_id);
    let d = "download/"@;
    let p1 = remote + d.drop_last();
    assert(remote + d + t =~= p1.push('/') + t);
    law_short_name_after_separator(p1, t);
    let c = seq!['.', '/', 'c', 'a', 'c', 'h', 'e'];
    assert(cache_path_text(file_id) =~= c.push('/') + t);
    law_short_name_after_separator(c, t);
}

} // verus!
