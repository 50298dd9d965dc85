//! What passes between the decision logic and its caller.
//!
//! The logic never reads the store, asks the platform or answers a message
//! itself. It hands out an `Action`; the caller performs it and hands back
//! the `Event` that tells what came of it.

use vstd::prelude::*;
use crate::group::{ChatId, Group, GroupModel};
use crate::permission::{MemberStatus, UserId};

verus! {

/// The commands that read or change a record.
#[derive(Clone, Copy, Debug, PartialEq, Eq, Structural)]
pub enum Operation {
    Status,
    Enable,
    Disable,
    SetTemplate,
    SetDelimiter,
    SetTimezone,
    Push,
    PushFront,
    Pop,
    PopFront,
}

/// Why a request ended without an answer.
#[derive(Clone, Copy, Debug, PartialEq, Eq, Structural)]
pub enum Failure {
    /// The record is guarded and the request names no user.
    MissingUser,
    /// The platform did not tell the standing of the user.
    MembershipUnavailable,
    /// The store did not take the record.
    StoreUnavailable,
    /// An event came that answers no pending action.
    OutOfTurn,
}

/// The answer to a request. The wording is the caller's.
#[derive(Clone, Debug, PartialEq, Eq)]
pub enum Reply {
    /// The command is only allowed in group chats.
    GroupOnly,
    /// The command lacks the text it needs.
    MissingArgument(Operation),
    /// The text names no zone of the database.
    InvalidTimezone,
    /// Nothing is said: the user may not change the record.
    Empty,
    /// The title could not be set; the group is switched off.
    ApplyFailed,
    /// The group is switched on, with this template.
    Enabled { template: String },
    /// The group is switched off.
    Disabled,
    /// The template now is this.
    TemplateChanged { template: String },
    /// The zone now is this.
    TimezoneChanged { timezone: String },
    /// The settings of the group, beside the current title of its chat.
    Status { title: String, group: Group },
}

/// An answer as a plain value.
pub ghost enum ReplyModel {
    GroupOnly,
    MissingArgument(Operation),
    InvalidTimezone,
    Empty,
    ApplyFailed,
    Enabled { template: Seq<char> },
    Disabled,
    TemplateChanged { template: Seq<char> },
    TimezoneChanged { timezone: Seq<char> },
    Status { title: Seq<char>, group: GroupModel },
}

impl View for Reply {
    type V = ReplyModel;

    open spec fn view(&self) -> ReplyModel {
        match *self {
            Reply::GroupOnly => ReplyModel::GroupOnly,
            Reply::MissingArgument(operation) => ReplyModel::MissingArgument(operation),
            Reply::InvalidTimezone => ReplyModel::InvalidTimezone,
            Reply::Empty => ReplyModel::Empty,
            Reply::ApplyFailed => ReplyModel::ApplyFailed,
            Reply::Enabled { template } => ReplyModel::Enabled { template: template@ },
            Reply::Disabled => ReplyModel::Disabled,
            Reply::TemplateChanged { template } => ReplyModel::TemplateChanged {
                template: template@,
            },
            Reply::TimezoneChanged { timezone } => ReplyModel::TimezoneChanged {
                timezone: timezone@,
            },
            Reply::Status { title, group } => ReplyModel::Status { title: title@, group: group@ },
        }
    }
}

/// What the caller is asked to do next.
#[derive(Clone, Debug, PartialEq, Eq)]
pub enum Action {
    /// Read the record of this chat from the store.
    Load { chat_id: ChatId },
    /// Write this record to the store, over what is there.
    Store { group: Group },
    /// Ask the platform for the standing of this user in this chat.
    QueryMember { chat_id: ChatId, user: UserId },
    /// Ask the platform to set the title of this chat.
    SetTitle { chat_id: ChatId, title: String },
    /// Answer the request; nothing follows.
    Reply(Reply),
    /// Give the request up; nothing follows.
    Fail(Failure),
    /// The sweep is over; nothing follows.
    Finish,
}

/// An action as a plain value.
pub ghost enum ActionModel {
    Load { chat_id: i64 },
    Store { group: GroupModel },
    QueryMember { chat_id: i64, user: UserId },
    SetTitle { chat_id: i64, title: Seq<char> },
    Reply(ReplyModel),
    Fail(Failure),
    Finish,
}

impl View for Action {
    type V = ActionModel;

    open spec fn view(&self) -> ActionModel {
        match *self {
            Action::Load { chat_id } => ActionModel::Load { chat_id: chat_id.0 },
            Action::Store { group } => ActionModel::Store { group: group@ },
            Action::QueryMember { chat_id, user } => ActionModel::QueryMember {
                chat_id: chat_id.0,
                user,
            },
            Action::SetTitle { chat_id, title } => ActionModel::SetTitle {
                chat_id: chat_id.0,
                title: title@,
            },
            Action::Reply(reply) => ActionModel::Reply(reply@),
            Action::Fail(failure) => ActionModel::Fail(failure),
            Action::Finish => ActionModel::Finish,
        }
    }
}

impl ActionModel {
    /// Whether the action writes to the store.
    pub open spec fn writes(self) -> bool {
        self is Store
    }

    /// Whether the action asks the platform to set a title.
    pub open spec fn sets_title(self) -> bool {
        self is SetTitle
    }
}

/// What came of the action that was asked for.
#[derive(Clone, Debug, PartialEq, Eq)]
pub enum Event {
    /// Nothing was asked for yet.
    Start,
    /// The store was read: the record, or none where the key is absent or
    /// could not be read.
    Record(Option<Group>),
    /// The store was written to, or refused.
    Stored(bool),
    /// The platform told the standing of the user, or did not.
    Member(Option<MemberStatus>),
    /// The platform set the title, or did not.
    TitleSet(bool),
}

/// An event as a plain value.
pub ghost enum EventModel {
    Start,
    Record(Option<GroupModel>),
    Stored(bool),
    Member(Option<MemberStatus>),
    TitleSet(bool),
}

impl View for Event {
    type V = EventModel;

    open spec fn view(&self) -> EventModel {
        match *self {
            Event::Start => EventModel::Start,
            Event::Record(Some(group)) => EventModel::Record(Some(group@)),
            Event::Record(None) => EventModel::Record(None),
            Event::Stored(done) => EventModel::Stored(done),
            Event::Member(status) => EventModel::Member(status),
            Event::TitleSet(done) => EventModel::TitleSet(done),
        }
    }
}

} // verus!
