//! The server's group directory requests: listing a user's groups, joining a group
//! and creating one. The database holds ids as text; the queries themselves run
//! outside, and these functions decide what is asked and what is answered.
use vstd::prelude::*;
use crate::ident::{uuid_new_v4, uuid_parse, uuid_parsed, uuid_text, uuid_to_string, version_variant_mask};
use crate::model::{CreateGroupForm, Group, GroupView, JoinGroupForm};

verus! {

/// HTTP status of a successful request.
pub const STATUS_OK: u16 = 200;

/// HTTP status of a join request for a membership that already exists.
pub const STATUS_CONFLICT: u16 = 409;

/// One row of a user's group listing, as the database returns it: the group's
/// name (which may be missing) and its id as text.
#[derive(Debug, Clone)]
pub struct GroupRow {
    pub name: Option<String>,
    pub id: String,
}

/// The group a listed row stands for, given what parsing its id gave: rows without a
/// name or whose id does not parse are left out.
pub open spec fn row_group(name: Option<Seq<char>>, id: Option<u128>) -> Option<GroupView> {
    match (name, id) {
        (Some(n), Some(i)) => Some(GroupView { name: n, id: i }),
        _ => None,
    }
}

/// The view of an optional name.
pub open spec fn name_view(name: Option<String>) -> Option<Seq<char>> {
    match name {
        Some(n) => Some(n@),
        None => None,
    }
}

/// The groups of a listing, in row order: each row whose name is present and whose id
/// parses as a UUID.
pub open spec fn listed_groups(rows: Seq<GroupRow>) -> Seq<GroupView>
    decreases rows.len(),
{
    if rows.len() == 0 {
        Seq::empty()
    } else {
        let last = rows.last();
        let rest = listed_groups(rows.drop_last());
        match row_group(name_view(last.name), uuid_parsed(last.id@)) {
            Some(g) => rest.push(g),
            None => rest,
        }
    }
}

/// The group of one listed row, from its name and the parsed id.
pub fn group_from_row(name: Option<String>, id: Option<u128>) -> (group: Option<Group>)
    ensures
        match group {
            Some(g) => row_group(name_view(name), id) == Some(g@),
            None => row_group(name_view(name), id) is None,
        },
{
    match (name, id) {
        (Some(n), Some(i)) => Some(Group { name: n, id: i }),
        _ => None,
    }
}

/// Whether a row holds a name and an id in the text form the server writes.
pub open spec fn is_written_row(row: GroupRow) -> bool {
    row.name is Some && exists|v: u128| uuid_text(v) == row.id@
}

/// The groups of a user's listing: rows with a name and a parsable id, in order.
/// Rows as the server writes them (a name, and an id as `uuid_to_string` prints it)
/// all come back, in order, with the ids they were written with.
pub fn groups_from_rows(rows: Vec<GroupRow>) -> (groups: Vec<Group>)
    ensures
        groups@.len() == listed_groups(rows@).len(),
        forall|i: int| 0 <= i < groups@.len() ==> #[trigger] groups@[i]@ == listed_groups(rows@)[i],
        (forall|i: int| 0 <= i < rows@.len() ==> is_written_row(#[trigger] rows@[i])) ==> {
            &&& groups@.len() == rows@.len()
            &&& forall|i: int, v: u128|
                #![trigger rows@[i], uuid_text(v)]
                0 <= i < rows@.len() && uuid_text(v) == rows@[i].id@ ==> groups@[i].id == v
                    && Some(groups@[i].name@) == name_view(rows@[i].name)
        },
{
    let ghost all = rows@;
    let mut groups: Vec<Group> = Vec::new();
    let n: usize = rows.len();
    let mut i: usize = 0;
    assert(all.take(0) =~= Seq::<GroupRow>::empty());
    for row in it: rows.into_iter()
        invariant
            it.seq() == all,
            i == it.index(),
            i <= all.len(),
            all.len() == n,
            groups@.len() == listed_groups(all.take(i as int)).len(),
            forall|j: int|
                0 <= j < groups@.len() ==> #[trigger] groups@[j]@ == listed_groups(all.take(i as int))[j],
            (forall|j: int| 0 <= j < i ==> is_written_row(#[trigger] all[j])) ==> {
                &&& groups@.len() == i
                &&& forall|j: int, v: u128|
                    #![trigger all[j], uuid_text(v)]
                    0 <= j < i && uuid_text(v) == all[j].id@ ==> groups@[j].id == v
                        && Some(groups@[j].name@) == name_view(all[j].name)
            },
    {
        assert(all.take(i + 1).drop_last() =~= all.take(i as int));
        assert(row == all[i as int]);
        let parsed = uuid_parse(row.id.as_str());
        let ghost before = groups@;
        let ghost row_name = name_view(row.name);
        match group_from_row(row.name, parsed) {
            Some(g) => {
                groups.push(g);
            },
            None => {},
        }
        assert(forall|j: int| 0 <= j < before.len() ==> groups@[j] == before[j]);
        proof {
            if forall|j: int| 0 <= j <= i ==> is_written_row(#[trigger] all[j]) {
                assert(is_written_row(all[i as int]));
                let w = choose|w: u128| uuid_text(w) == all[i as int].id@;
                assert(parsed == Some(w));
                assert(groups@.len() == i + 1);
                assert forall|j: int, v: u128|
                    #![trigger all[j], uuid_text(v)]
                    0 <= j < i + 1 && uuid_text(v) == all[j].id@ implies groups@[j].id == v
                        && Some(groups@[j].name@) == name_view(all[j].name) by {
                    if j == i {
                        assert(uuid_text(v) == uuid_text(w));
                        assert(parsed == Some(v));
                    } else {
                        assert(is_written_row(all[j]));
                    }
                }
            }
        }
        i = i + 1;
    }
    assert(all.take(all.len() as int) =~= all);
    groups
}

/// A membership row, with both ids as text.
#[derive(Debug, Clone)]
pub struct MemberRow {
    pub group_id: String,
    pub user_id: String,
}

/// The membership row of a user in a group.
pub fn member_row(group_id: u128, user_id: u128) -> (row: MemberRow)
    ensures
        row.group_id@ == uuid_text(group_id),
        row.user_id@ == uuid_text(user_id),
{
    MemberRow { group_id: uuid_to_string(group_id), user_id: uuid_to_string(user_id) }
}

/// Progress of a join request.
pub enum JoinEvent {
    /// The request arrived.
    Received,
    /// The membership lookup finished; `found` tells whether the row exists.
    LookedUp { found: bool },
    /// The membership row was inserted.
    Inserted,
}

/// The next step of a join request.
pub enum JoinStep {
    /// Look the membership row up.
    Lookup(MemberRow),
    /// Insert the membership row.
    Insert(MemberRow),
    /// Answer with this HTTP status.
    Reply(u16),
}

/// Whether `row` is the membership row of `form`: its group and user ids as text.
pub open spec fn is_form_row(row: MemberRow, form: JoinGroupForm) -> bool {
    row.group_id@ == uuid_text(form.group_id) && row.user_id@ == uuid_text(form.user_id)
}

/// Decides a join request: look the membership up first; an existing membership is
/// answered with a conflict and nothing is inserted; otherwise the row is inserted and
/// the request answered with success.
pub fn join_group_step(form: &JoinGroupForm, event: JoinEvent) -> (step: JoinStep)
    ensures
        event is Received ==> (step matches JoinStep::Lookup(row) && is_form_row(row, *form)),
        event matches JoinEvent::LookedUp { found } ==> (if found {
            step == JoinStep::Reply(STATUS_CONFLICT)
        } else {
            step matches JoinStep::Insert(row) && is_form_row(row, *form)
        }),
        event is Inserted ==> step == JoinStep::Reply(STATUS_OK),
{
    match event {
        JoinEvent::Received => JoinStep::Lookup(member_row(form.group_id, form.user_id)),
        JoinEvent::LookedUp { found } => {
            if found {
                JoinStep::Reply(STATUS_CONFLICT)
            } else {
                JoinStep::Insert(member_row(form.group_id, form.user_id))
            }
        },
        JoinEvent::Inserted => JoinStep::Reply(STATUS_OK),
    }
}

/// Progress of a create request, after its id has been drawn.
pub enum CreateEvent {
    /// The id was drawn.
    IdDrawn,
    /// The group row was inserted.
    GroupInserted,
    /// The creator's membership row was inserted.
    MemberInserted,
}

/// The next step of a create request.
pub enum CreateStep {
    /// Insert the group row: its name and its id as text.
    InsertGroup { name: String, id: String },
    /// Insert the creator's membership row.
    InsertMember(MemberRow),
    /// Answer with this HTTP status.
    Reply(u16),
}

/// Decides a create request for the group id `group_id`: insert the group, then the
/// creator as its member, then answer with success.
pub fn create_group_step(form: &CreateGroupForm, group_id: u128, event: CreateEvent) -> (step: CreateStep)
    ensures
        event is IdDrawn ==> (step matches CreateStep::InsertGroup { name, id } && name@ == form.name@
            && id@ == uuid_text(group_id)),
        event is GroupInserted ==> (step matches CreateStep::InsertMember(row)
            && row.group_id@ == uuid_text(group_id) && row.user_id@ == uuid_text(form.user_id)),
        event is MemberInserted ==> step == CreateStep::Reply(STATUS_OK),
{
    match event {
        CreateEvent::IdDrawn => CreateStep::InsertGroup {
            name: form.name.clone(),
            id: uuid_to_string(group_id),
        },
        CreateEvent::GroupInserted => CreateStep::InsertMember(member_row(group_id, form.user_id)),
        CreateEvent::MemberInserted => CreateStep::Reply(STATUS_OK),
    }
}

/// Starts a create request: draws a fresh random version-4 id for the group and gives
/// the first step for it.
pub fn create_group_begin(form: &CreateGroupForm) -> (start: (u128, CreateStep))
    ensures
        start.0 & version_variant_mask() == 0x4000_8000_0000_0000_0000u128,
        start.1 matches CreateStep::InsertGroup { name, id } && name@ == form.name@
            && id@ == uuid_text(start.0),
{
    let group_id: u128 = uuid_new_v4();
    let step = create_group_step(form, group_id, CreateEvent::IdDrawn);
    (group_id, step)
}

/// A listing is read row by row: the groups of two consecutive runs of rows are the
/// groups of the first run followed by those of the second.
pub proof fn law_listing_is_row_by_row(first: Seq<GroupRow>, second: Seq<GroupRow>)
    ensures
        listed_groups(first + second) == listed_groups(first) + listed_groups(second),
    decreases second.len(),
{
    if second.len() == 0 {
        assert(first + second =~= first);
        assert(listed_groups(first) + listed_groups(second) =~= listed_groups(first));
    } else {
        law_listing_is_row_by_row(first, second.drop_last());
        assert((first + second).drop_last() =~= first + second.drop_last());
        assert((first + second).last() == second.last());
        let l = listed_groups(first);
        let r = listed_groups(second.drop_last());
        match row_group(name_view(second.last().name), uuid_parsed(second.last().id@)) {
            Some(g) => {
                assert((l + r).push(g) =~= l + r.push(g));
            },
            None => {},
        }
    }
}

/// A single row gives its group exactly when it has a name and its id parses; the
/// group then carries that name and the parsed id.
pub proof fn law_single_row_listing(row: GroupRow)
    ensures
        (row.name is None || uuid_parsed(row.id@) is None) ==> listed_groups(seq![row]) =~= Seq::<
            GroupView,
        >::empty(),
        row.name matches Some(n) ==> (uuid_parsed(row.id@) matches Some(i) ==> listed_groups(seq![row])
            =~= seq![GroupView { name: n@, id: i }]),
{
    let one = seq![row];
    assert(one.drop_last() =~= Seq::<GroupRow>::empty());
    assert(one.last() == row);
    assert(listed_groups(one.drop_last()) == Seq::<GroupView>::empty());
    assert(listed_groups(one) == match row_group(name_view(row.name), uuid_parsed(row.id@)) {
        Some(g) => Seq::<GroupView>::empty().push(g),
        None => Seq::<GroupView>::empty(),
    });
}

} // verus!
