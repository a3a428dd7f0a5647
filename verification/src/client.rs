//! The upload client: its screens, what a click or a finished background task does
//! to them, and the requests it sends.
use vstd::prelude::*;
use crate::ident::{uuid_text, uuid_to_string};
use crate::text::{
    after_last_slash, decimal, decimal_text, joined, law_short_name_after_separator, short_filename,
};

verus! {

/// The server address the client talks to, with a trailing slash.
pub open spec fn server_text() -> Seq<char> {
    "http://koebstoffer.info:3987/"@
}

/// What the client window shows.
#[derive(Debug, Clone)]
pub enum FileStatus {
    /// No file chosen yet.
    Unselected,
    /// A file (its path) is chosen and can be uploaded.
    Selected(String),
    /// An upload or a reload is running.
    Sending,
    /// The last upload succeeded.
    Success,
    /// The upload of a file (its path) failed with this message.
    Failed(String, String),
    /// The user's groups are being loaded.
    LoadingMd,
    /// Loading the groups failed; the file path given at start, and the message.
    FailedMd(Option<String>, String),
}

/// Something that happened to the client.
#[derive(Debug, Clone)]
pub enum UiEvent {
    /// The button of the current screen was clicked.
    ButtonPressed,
    /// The file dialog closed with this choice.
    FileChosen(Option<String>),
    /// An upload of `filename` finished, with an error message when it failed.
    UploadFinished { filename: String, error: Option<String> },
    /// Loading the groups finished, with an error message when it failed; `file` is
    /// the path the load was started with.
    MetaLoaded { file: Option<String>, error: Option<String> },
}

/// Work the client starts in reaction to an event.
#[derive(Debug, Clone)]
pub enum ClientAction {
    Nothing,
    /// Open the file dialog.
    OpenFileDialog,
    /// Upload `filename` to the group at index `group` of the loaded groups.
    Upload { filename: String, group: usize },
    /// Load the user's groups, then show `file` if one is given.
    LoadMeta(Option<String>),
}

/// The next screen and the work to start.
pub struct Transition {
    pub status: FileStatus,
    pub action: ClientAction,
}

/// The spec view of an optional text.
pub open spec fn opt_view(t: Option<String>) -> Option<Seq<char>> {
    match t {
        Some(s) => Some(s@),
        None => None,
    }
}

/// Abstract value of a status.
pub enum StatusView {
    Unselected,
    Selected(Seq<char>),
    Sending,
    Success,
    Failed(Seq<char>, Seq<char>),
    LoadingMd,
    FailedMd(Option<Seq<char>>, Seq<char>),
}

/// Abstract value of an action.
pub enum ActionView {
    Nothing,
    OpenFileDialog,
    Upload(Seq<char>, usize),
    LoadMeta(Option<Seq<char>>),
}

impl View for FileStatus {
    type V = StatusView;

    open spec fn view(&self) -> StatusView {
        match self {
            FileStatus::Unselected => StatusView::Unselected,
            FileStatus::Selected(f) => StatusView::Selected(f@),
            FileStatus::Sending => StatusView::Sending,
            FileStatus::Success => StatusView::Success,
            FileStatus::Failed(f, e) => StatusView::Failed(f@, e@),
            FileStatus::LoadingMd => StatusView::LoadingMd,
            FileStatus::FailedMd(f, e) => StatusView::FailedMd(opt_view(*f), e@),
        }
    }
}

impl View for ClientAction {
    type V = ActionView;

    open spec fn view(&self) -> ActionView {
        match self {
            ClientAction::Nothing => ActionView::Nothing,
            ClientAction::OpenFileDialog => ActionView::OpenFileDialog,
            ClientAction::Upload { filename, group } => ActionView::Upload(filename@, *group),
            ClientAction::LoadMeta(f) => ActionView::LoadMeta(opt_view(*f)),
        }
    }
}

/// Abstract value of an event.
pub enum EventView {
    ButtonPressed,
    FileChosen(Option<Seq<char>>),
    UploadFinished(Seq<char>, Option<Seq<char>>),
    MetaLoaded(Option<Seq<char>>, Option<Seq<char>>),
}

impl View for UiEvent {
    type V = EventView;

    open spec fn view(&self) -> EventView {
        match self {
            UiEvent::ButtonPressed => EventView::ButtonPressed,
            UiEvent::FileChosen(f) => EventView::FileChosen(opt_view(*f)),
            UiEvent::UploadFinished { filename, error } => EventView::UploadFinished(
                filename@,
                opt_view(*error),
            ),
            UiEvent::MetaLoaded { file, error } => EventView::MetaLoaded(opt_view(*file), opt_view(*error)),
        }
    }
}

/// Whether a click on `status` uploads to the selected group, which must then exist.
pub open spec fn click_uploads(status: StatusView) -> bool {
    status is Selected || status is Failed
}

/// Whether a click on this screen uploads to the selected group.
pub fn click_needs_group(status: &FileStatus) -> (needs: bool)
    ensures
        needs == click_uploads(status@),
{
    match status {
        FileStatus::Selected(_) => true,
        FileStatus::Failed(_, _) => true,
        _ => false,
    }
}

/// The screen and work that follow `event` on screen `status`, with group `selected`
/// chosen among `group_count` loaded groups:
/// - a click on a chosen or failed file uploads it to the selected group and shows
///   the sending screen; a click on the failed-loading screen reloads the groups
///   (keeping the start path) and shows the sending screen; a click on the success
///   screen goes back to choosing a file; a click on the choosing screen opens the
///   file dialog; the sending and loading screens have no button;
/// - a chosen file is shown as selected; a cancelled dialog changes nothing;
/// - a finished upload shows success, or the failure with its message;
/// - finished loading shows the start path as selected, or the choosing screen when
///   there is none, or the loading failure with its message.
pub open spec fn next_screen(
    status: StatusView,
    event: EventView,
    selected: usize,
) -> (StatusView, ActionView) {
    match event {
        EventView::ButtonPressed => match status {
            StatusView::Unselected => (StatusView::Unselected, ActionView::OpenFileDialog),
            StatusView::Selected(f) => (StatusView::Sending, ActionView::Upload(f, selected)),
            StatusView::Failed(f, _) => (StatusView::Sending, ActionView::Upload(f, selected)),
            StatusView::Success => (StatusView::Unselected, ActionView::Nothing),
            StatusView::FailedMd(f, _) => (StatusView::Sending, ActionView::LoadMeta(f)),
            _ => (status, ActionView::Nothing),
        },
        EventView::FileChosen(choice) => match choice {
            Some(f) => (StatusView::Selected(f), ActionView::Nothing),
            None => (status, ActionView::Nothing),
        },
        EventView::UploadFinished(f, error) => match error {
            None => (StatusView::Success, ActionView::Nothing),
            Some(e) => (StatusView::Failed(f, e), ActionView::Nothing),
        },
        EventView::MetaLoaded(file, error) => match error {
            None => match file {
                Some(f) => (StatusView::Selected(f), ActionView::Nothing),
                None => (StatusView::Unselected, ActionView::Nothing),
            },
            Some(e) => (StatusView::FailedMd(file, e), ActionView::Nothing),
        },
    }
}

/// The first screen and work of the client: load the groups, then show `file`.
pub fn start(file: Option<String>) -> (t: Transition)
    ensures
        t.status@ == StatusView::LoadingMd,
        t.action@ == ActionView::LoadMeta(opt_view(file)),
{
    Transition { status: FileStatus::LoadingMd, action: ClientAction::LoadMeta(file) }
}

/// Applies `event` to screen `status` (see `next_screen`). A click that uploads needs
/// the selected group to exist.
pub fn step(status: FileStatus, event: UiEvent, selected: usize, group_count: usize) -> (t: Transition)
    requires
        event is ButtonPressed && click_uploads(status@) ==> selected < group_count,
    ensures
        (t.status@, t.action@) == next_screen(status@, event@, selected),
        t.action matches ClientAction::Upload { group, .. } ==> group < group_count,
{
    match event {
        UiEvent::ButtonPressed => match status {
            FileStatus::Unselected => Transition {
                status: FileStatus::Unselected,
                action: ClientAction::OpenFileDialog,
            },
            FileStatus::Selected(f) => Transition {
                status: FileStatus::Sending,
                action: ClientAction::Upload { filename: f, group: selected },
            },
            FileStatus::Failed(f, _) => Transition {
                status: FileStatus::Sending,
                action: ClientAction::Upload { filename: f, group: selected },
            },
            FileStatus::Success => Transition {
                status: FileStatus::Unselected,
                action: ClientAction::Nothing,
            },
            FileStatus::FailedMd(f, _) => Transition {
                status: FileStatus::Sending,
                action: ClientAction::LoadMeta(f),
            },
            other => Transition { status: other, action: ClientAction::Nothing },
        },
        UiEvent::FileChosen(choice) => match choice {
            Some(f) => Transition { status: FileStatus::Selected(f), action: ClientAction::Nothing },
            None => Transition { status, action: ClientAction::Nothing },
        },
        UiEvent::UploadFinished { filename, error } => match error {
            None => Transition { status: FileStatus::Success, action: ClientAction::Nothing },
            Some(e) => Transition {
                status: FileStatus::Failed(filename, e),
                action: ClientAction::Nothing,
            },
        },
        UiEvent::MetaLoaded { file, error } => match error {
            None => match file {
                Some(f) => Transition {
                    status: FileStatus::Selected(f),
                    action: ClientAction::Nothing,
                },
                None => Transition { status: FileStatus::Unselected, action: ClientAction::Nothing },
            },
            Some(e) => Transition {
                status: FileStatus::FailedMd(file, e),
                action: ClientAction::Nothing,
            },
        },
    }
}

/// What a screen shows: its heading, the label of its button if it has one, the
/// message below it if any, and whether the group picker is shown.
pub struct Screen {
    pub heading: String,
    pub button: Option<String>,
    pub note: Option<String>,
    pub picks_group: bool,
}

/// The heading of a screen.
pub open spec fn screen_heading(status: StatusView) -> Seq<char> {
    match status {
        StatusView::Unselected => "Select file"@,
        StatusView::Selected(f) => "Upload "@ + after_last_slash(f),
        StatusView::Sending => "Uploading"@,
        StatusView::Success => "Success"@,
        StatusView::Failed(_, _) => "Failed"@,
        StatusView::LoadingMd => "Loading meta"@,
        StatusView::FailedMd(_, _) => "Failed loading meta"@,
    }
}

/// The button label of a screen, if it has a button.
pub open spec fn screen_button(status: StatusView) -> Option<Seq<char>> {
    match status {
        StatusView::Unselected => Some("file"@),
        StatusView::Selected(_) => Some("upload"@),
        StatusView::Success => Some("upload another"@),
        StatusView::Failed(_, _) => Some("retry"@),
        StatusView::FailedMd(_, _) => Some("retry"@),
        _ => None,
    }
}

/// The message shown under a screen's button: the error of a failed screen.
pub open spec fn screen_note(status: StatusView) -> Option<Seq<char>> {
    match status {
        StatusView::Failed(_, e) => Some(e),
        StatusView::FailedMd(_, e) => Some(e),
        _ => None,
    }
}

fn text(s: &str) -> (t: String)
    ensures
        t@ == s@,
{
    String::from_str(s)
}

/// What the screen for `status` shows.
pub fn screen(status: &FileStatus) -> (sc: Screen)
    ensures
        sc.heading@ == screen_heading(status@),
        opt_view(sc.button) == screen_button(status@),
        opt_view(sc.note) == screen_note(status@),
        sc.picks_group == status@ is Selected,
{
    match status {
        FileStatus::Unselected => Screen {
            heading: text("Select file"),
            button: Some(text("file")),
            note: None,
            picks_group: false,
        },
        FileStatus::Selected(f) => {
            let short = short_filename(f.as_str());
            Screen {
                heading: joined("Upload ", short.as_str()),
                button: Some(text("upload")),
                note: None,
                picks_group: true,
            }
        },
        FileStatus::Sending => Screen {
            heading: text("Uploading"),
            button: None,
            note: None,
            picks_group: false,
        },
        FileStatus::Success => Screen {
            heading: text("Success"),
            button: Some(text("upload another")),
            note: None,
            picks_group: false,
        },
        FileStatus::Failed(_, e) => Screen {
            heading: text("Failed"),
            button: Some(text("retry")),
            note: Some(e.clone()),
            picks_group: false,
        },
        FileStatus::LoadingMd => Screen {
            heading: text("Loading meta"),
            button: None,
            note: None,
            picks_group: false,
        },
        FileStatus::FailedMd(_, e) => Screen {
            heading: text("Failed loading meta"),
            button: Some(text("retry")),
            note: Some(e.clone()),
            picks_group: false,
        },
    }
}

/// The address uploads are posted to.
pub fn upload_url() -> (url: String)
    ensures
        url@ == server_text() + "upload"@,
{
    joined("http://koebstoffer.info:3987/", "upload")
}

/// The address of a user's group listing.
pub fn meta_url(user_id: u128) -> (url: String)
    ensures
        url@ == server_text() + "get_md/"@ + uuid_text(user_id),
{
    let mut url = joined("http://koebstoffer.info:3987/", "get_md/");
    let id = uuid_to_string(user_id);
    url.append(id.as_str());
    url
}

/// The text fields of an upload form; the file's bytes go alongside, under `file_name`.
pub struct UploadForm {
    /// The target group's id as text.
    pub group_id: String,
    /// The sending user's name.
    pub sender: String,
    /// The file name sent with the bytes: the path as chosen.
    pub file_name: String,
}

/// The upload form for a file at `path`, sent by `username` to the group `group_id`.
pub fn upload_form(group_id: u128, username: String, path: String) -> (form: UploadForm)
    ensures
        form.group_id@ == uuid_text(group_id),
        form.sender@ == username@,
        form.file_name@ == path@,
{
    UploadForm { group_id: uuid_to_string(group_id), sender: username, file_name: path }
}

/// Whether an HTTP status reports success (the `2xx` range).
pub open spec fn is_success_status(code: u16) -> bool {
    200 <= code < 300
}

/// The message of a refused upload: the status code, as the response error prints it.
pub open spec fn refusal_text(code: u16) -> Seq<char> {
    "ResponseError { _status_code: "@ + decimal(code as nat) + " }"@
}

/// The outcome of an upload answered with HTTP status `code`: none on success,
/// otherwise the error message shown to the user.
pub fn upload_outcome(code: u16) -> (error: Option<String>)
    ensures
        is_success_status(code) ==> error is None,
        !is_success_status(code) ==> (error matches Some(e) && e@ == refusal_text(code)),
        error is None <==> (200 <= code && code < 300),
{
    if 200 <= code && code < 300 {
        None
    } else {
        let mut e = text("ResponseError { _status_code: ");
        let digits = decimal_text(code as u64);
        e.append(digits.as_str());
        e.append(" }");
        Some(e)
    }
}

/// Clicks do nothing while an upload or a load is running.
pub proof fn law_busy_screens_ignore_clicks(status: StatusView, selected: usize)
    requires
        status is Sending || status is LoadingMd,
    ensures
        next_screen(status, EventView::ButtonPressed, selected) == (status, ActionView::Nothing),
{
}

/// A finished upload always leaves the screen it finds: success, or the failure of
/// that file with its message.
pub proof fn law_finished_upload_reports(
    status: StatusView,
    filename: Seq<char>,
    error: Option<Seq<char>>,
    selected: usize,
)
    ensures
        next_screen(status, EventView::UploadFinished(filename, error), selected).0 == match error {
            None => StatusView::Success,
            Some(e) => StatusView::Failed(filename, e),
        },
        next_screen(status, EventView::UploadFinished(filename, error), selected).1
            == ActionView::Nothing,
{
}

/// Retrying a failed upload sends the same file again, to the selected group.
pub proof fn law_retry_resends_same_file(
    filename: Seq<char>,
    message: Seq<char>,
    selected: usize,
)
    ensures
        next_screen(StatusView::Failed(filename, message), EventView::ButtonPressed, selected)
            == (StatusView::Sending, ActionView::Upload(filename, selected)),
{
}

/// Uploads start only from a click on a chosen or failed file; group loads only from
/// a click on the failed-loading screen.
pub proof fn law_work_starts_only_on_click(status: StatusView, event: EventView, selected: usize)
    ensures
        next_screen(status, event, selected).1 is Upload ==> event is ButtonPressed && click_uploads(
            status,
        ),
        next_screen(status, event, selected).1 is LoadMeta ==> event is ButtonPressed
            && status is FailedMd,
        next_screen(status, event, selected).1 is OpenFileDialog ==> event is ButtonPressed
            && status is Unselected,
{
}

/// A click on the file-choosing screen opens the file dialog and stays on that screen;
/// if the dialog is then cancelled, the window is back where it was.
pub proof fn law_choose_click_opens_dialog(selected: usize)
    ensures
        next_screen(StatusView::Unselected, EventView::ButtonPressed, selected) == (
            StatusView::Unselected,
            ActionView::OpenFileDialog,
        ),
        next_screen(
            next_screen(StatusView::Unselected, EventView::ButtonPressed, selected).0,
            EventView::FileChosen(None),
            selected,
        ).0 == StatusView::Unselected,
{
}

/// A cancelled file dialog changes nothing, on any screen.
pub proof fn law_cancelled_dialog_changes_nothing(status: StatusView, selected: usize)
    ensures
        next_screen(status, EventView::FileChosen(None), selected) == (status, ActionView::Nothing),
{
}

/// A screen offers a button exactly when clicking does something there (changes the
/// screen or starts work), and both failure screens offer a retry.
pub proof fn law_button_exactly_when_click_acts(status: StatusView, selected: usize)
    ensures
        screen_button(status) is Some <==> next_screen(status, EventView::ButtonPressed, selected) != (
            status,
            ActionView::Nothing,
        ),
        status is Failed ==> screen_button(status) == Some("retry"@),
        status is FailedMd ==> screen_button(status) == Some("retry"@),
{
    reveal_strlit("retry");
}

/// Only the `2xx` statuses count as a successful upload; every other status, `1xx`,
/// `3xx`, `4xx` or `5xx`, is a refusal.
pub proof fn law_only_2xx_succeeds(code: u16)
    ensures
        is_success_status(code) <==> (200 <= code && code < 300),
        code >= 300 ==> !is_success_status(code),
        code < 200 ==> !is_success_status(code),
{
}

/// A failed group load keeps the path it was started with, so that retrying it
/// reloads with that same path.
pub proof fn law_failed_load_keeps_start_file(
    status: StatusView,
    file: Option<Seq<char>>,
    error: Seq<char>,
    selected: usize,
)
    ensures
        next_screen(status, EventView::MetaLoaded(file, Some(error)), selected).0
            == StatusView::FailedMd(file, error),
        next_screen(
            next_screen(status, EventView::MetaLoaded(file, Some(error)), selected).0,
            EventView::ButtonPressed,
            selected,
        ) == (StatusView::Sending, ActionView::LoadMeta(file)),
{
}

/// A load started with a path and finished without error shows that path as chosen;
/// started without one, it shows the file-choosing screen.
pub proof fn law_loaded_shows_start_file(status: StatusView, file: Option<Seq<char>>, selected: usize)
    ensures
        file matches Some(f) ==> next_screen(status, EventView::MetaLoaded(file, None), selected).0
            == StatusView::Selected(f),
        file is None ==> next_screen(status, EventView::MetaLoaded(file, None), selected).0
            == StatusView::Unselected,
{
}

/// A click on a chosen file sends that very file to the selected group and shows the
/// sending screen.
pub proof fn law_upload_click_sends_chosen_file(file: Seq<char>, selected: usize)
    ensures
        next_screen(StatusView::Selected(file), EventView::ButtonPressed, selected) == (
            StatusView::Sending,
            ActionView::Upload(file, selected),
        ),
{
}

/// After a success, a click goes back to choosing a file and starts nothing.
pub proof fn law_success_click_returns_to_choosing(selected: usize)
    ensures
        next_screen(StatusView::Success, EventView::ButtonPressed, selected) == (
            StatusView::Unselected,
            ActionView::Nothing,
        ),
{
}

/// A file chosen in the dialog is shown as the selected file, whatever was shown before,
/// and nothing starts until the user clicks.
pub proof fn law_chosen_file_is_selected(status: StatusView, file: Seq<char>, selected: usize)
    ensures
        next_screen(status, EventView::FileChosen(Some(file)), selected) == (
            StatusView::Selected(file),
            ActionView::Nothing,
        ),
{
}

/// The upload heading names the file, not its folder: a file shows the same heading
/// wherever it lies, and the heading is "Upload " followed by a name without `'/'`.
pub proof fn law_upload_heading_ignores_folder(folder: Seq<char>, name: Seq<char>)
    requires
        !name.contains('/'),
    ensures
        screen_heading(StatusView::Selected(folder.push('/') + name)) == screen_heading(
            StatusView::Selected(name),
        ),
        screen_heading(StatusView::Selected(name)) == "Upload "@ + name,
{
    law_short_name_after_separator(folder, name);
    crate::text::law_plain_name_is_kept(name);
}

/// The failure screens, and only they, show a message below their button, and that
/// message is the error they were reached with.
pub proof fn law_note_is_failure_message(status: StatusView)
    ensures
        screen_note(status) is Some <==> (status is Failed || status is FailedMd),
        status matches StatusView::Failed(_, e) ==> screen_note(status) == Some(e),
        status matches StatusView::FailedMd(_, e) ==> screen_note(status) == Some(e),
{
}

} // verus!
