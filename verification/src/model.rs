//! The records exchanged between the client, the server and the daemon.
//! UUIDs are held as their 128-bit values.
use vstd::prelude::*;

verus! {

/// Announcement of an uploaded file, broadcast by the server to every subscriber.
#[derive(Debug, Clone)]
pub struct EventData {
    pub filename: String,
    pub file_id: u128,
    pub groupname: String,
    pub group_id: u128,
    pub sender: String,
}

/// A group a user belongs to.
#[derive(Debug, Clone)]
pub struct Group {
    pub name: String,
    pub id: u128,
}

/// Request to create a group, whose creator becomes its first member.
#[derive(Debug, Clone)]
pub struct CreateGroupForm {
    pub user_id: u128,
    pub name: String,
}

/// Request to add a user to a group.
#[derive(Debug, Clone)]
pub struct JoinGroupForm {
    pub user_id: u128,
    pub group_id: u128,
}

/// Abstract value of an `EventData`.
pub struct EventView {
    pub filename: Seq<char>,
    pub file_id: u128,
    pub groupname: Seq<char>,
    pub group_id: u128,
    pub sender: Seq<char>,
}

impl View for EventData {
    type V = EventView;

    open spec fn view(&self) -> EventView {
        EventView {
            filename: self.filename@,
            file_id: self.file_id,
            groupname: self.groupname@,
            group_id: self.group_id,
            sender: self.sender@,
        }
    }
}

/// Abstract value of a `Group`.
pub struct GroupView {
    pub name: Seq<char>,
    pub id: u128,
}

impl View for Group {
    type V = GroupView;

    open spec fn view(&self) -> GroupView {
        GroupView { name: self.name@, id: self.id }
    }
}

} // verus!
