//! The interactive commands, as a machine that is driven by events.
//!
//! A request goes through the same stations whatever its command: chats
//! that are no groups are turned away, the text of the command is looked
//! at, the record is loaded or made, the permission gate is passed, the
//! record is changed, the title is applied where the change calls for it,
//! and the record is stored before the answer goes out. `step` takes the
//! station a request is at and the event that came in, and gives the next
//! station and what to do. A record is stored once, after the title was
//! applied, so that a group whose title could not be set is never stored as
//! switched on.

use vstd::prelude::*;
use crate::calendar::{is_zone_name, lookup_zone};
use crate::group::{get_group_title, group_title, ChatId, ChatKind, Group, GroupModel};
use crate::permission::{
    check_permission, clearance, is_admin, is_privileged, Clearance, MemberStatus, UserId,
};
use crate::protocol::{
    Action, ActionModel, Event, EventModel, Failure, Operation, Reply, ReplyModel,
};
use crate::template::TitleError;
use crate::text::{after_first_space, command_argument};

verus! {

/// What `echo` answers to a text without an argument.
pub const ECHO_FALLBACK: &'static str = "wut?";

/// A command as it came in.
#[derive(Clone, Debug, PartialEq, Eq)]
pub struct Request {
    pub operation: Operation,
    pub chat_id: ChatId,
    pub chat: ChatKind,
    /// The text of the message: the command, a space, and its argument.
    pub text: String,
    /// Who sent the message, where the platform tells.
    pub user: Option<UserId>,
    /// When the request is handled, in milliseconds since the epoch.
    pub instant_millis: u64,
}

/// A request as a plain value.
pub ghost struct RequestModel {
    pub operation: Operation,
    pub chat_id: i64,
    pub title: Option<Seq<char>>,
    pub text: Seq<char>,
    pub user: Option<UserId>,
    pub instant_millis: u64,
}

impl View for Request {
    type V = RequestModel;

    open spec fn view(&self) -> RequestModel {
        RequestModel {
            operation: self.operation,
            chat_id: self.chat_id.0,
            title: group_title(self.chat),
            text: self.text@,
            user: self.user,
            instant_millis: self.instant_millis,
        }
    }
}

/// The station that a request is at.
#[derive(Clone, Debug, PartialEq, Eq)]
pub enum Stage {
    /// Nothing was done yet.
    Begin,
    /// The record was asked for.
    AwaitRecord,
    /// There was no record; a new one is being stored.
    AwaitCreation { group: Group },
    /// The standing of the user was asked for.
    AwaitMember { group: Group },
    /// The platform was asked to set `title`.
    AwaitTitle { group: Group, title: String },
    /// The record is being stored; `reply` goes out once it is.
    AwaitStore { reply: Reply },
    /// The request is over.
    Done,
}

/// A station as a plain value.
pub ghost enum StageModel {
    Begin,
    AwaitRecord,
    AwaitCreation { group: GroupModel },
    AwaitMember { group: GroupModel },
    AwaitTitle { group: GroupModel, title: Seq<char> },
    AwaitStore { reply: ReplyModel },
    Done,
}

impl View for Stage {
    type V = StageModel;

    open spec fn view(&self) -> StageModel {
        match *self {
            Stage::Begin => StageModel::Begin,
            Stage::AwaitRecord => StageModel::AwaitRecord,
            Stage::AwaitCreation { group } => StageModel::AwaitCreation { group: group@ },
            Stage::AwaitMember { group } => StageModel::AwaitMember { group: group@ },
            Stage::AwaitTitle { group, title } => StageModel::AwaitTitle {
                group: group@,
                title: title@,
            },
            Stage::AwaitStore { reply } => StageModel::AwaitStore { reply: reply@ },
            Stage::Done => StageModel::Done,
        }
    }
}

/// Whether `out` is the station and action that `model` names.
pub open spec fn same_step(out: (Stage, Action), model: (StageModel, ActionModel)) -> bool {
    out.0@ == model.0 && out.1@ == model.1
}

impl RequestModel {
    /// The argument of the command: what follows the first space of the
    /// text, or nothing.
    pub open spec fn argument(self) -> Seq<char> {
        match after_first_space(self.text) {
            Some(argument) => argument,
            None => Seq::empty(),
        }
    }

    /// Whether the command lacks the text it needs. A template or a zone must
    /// be there; a delimiter or a segment must be there and not be empty.
    pub open spec fn lacks_argument(self) -> bool {
        match self.operation {
            Operation::SetTemplate | Operation::SetTimezone => after_first_space(self.text)
                is None,
            Operation::SetDelimiter | Operation::Push | Operation::PushFront => self.argument().len()
                == 0,
            _ => false,
        }
    }

    /// The answer that tells of a change to `group`.
    pub open spec fn confirmation(self, group: GroupModel) -> ReplyModel {
        match self.operation {
            Operation::Enable => ReplyModel::Enabled { template: group.template() },
            Operation::Disable => ReplyModel::Disabled,
            Operation::SetTimezone => ReplyModel::TimezoneChanged { timezone: group.timezone },
            _ => ReplyModel::TemplateChanged { template: group.template() },
        }
    }

    /// Stores `group` as switched off and tells that its title could not be
    /// set.
    pub open spec fn give_up(self, group: GroupModel) -> (StageModel, ActionModel) {
        (
            StageModel::AwaitStore { reply: ReplyModel::ApplyFailed },
            ActionModel::Store { group: group.with_enable(false) },
        )
    }

    /// Stores `group` and tells of the change.
    pub open spec fn keep(self, group: GroupModel) -> (StageModel, ActionModel) {
        (StageModel::AwaitStore { reply: self.confirmation(group) }, ActionModel::Store { group })
    }

    /// What follows when the template of `group` gave `outcome`: its title
    /// is asked to be set, or the request gives up where there is no title to
    /// send.
    pub open spec fn attempt_given(
        self,
        group: GroupModel,
        outcome: Result<Seq<char>, TitleError>,
    ) -> (StageModel, ActionModel) {
        match outcome {
            Ok(title) => (
                StageModel::AwaitTitle { group, title },
                ActionModel::SetTitle { chat_id: group.id, title },
            ),
            Err(_) => self.give_up(group),
        }
    }

    /// Applies the template of `group`: asks for its title to be set, or
    /// gives up where there is no title to send.
    pub open spec fn attempt(self, group: GroupModel) -> (StageModel, ActionModel) {
        self.attempt_given(group, group.title_to_send(self.instant_millis))
    }

    /// What follows a change of the template, the delimiter or the zone:
    /// the title is applied where the group is switched on, and the record
    /// is stored as it is where it is not.
    pub open spec fn update_template(self, group: GroupModel) -> (StageModel, ActionModel) {
        if group.enable {
            self.attempt(group)
        } else {
            self.keep(group)
        }
    }

    /// The record that the command makes of `group`.
    pub open spec fn changed(self, group: GroupModel) -> GroupModel {
        match self.operation {
            Operation::Status => group,
            Operation::Enable => group.with_enable(true),
            Operation::Disable => group.with_enable(false),
            Operation::SetTemplate => group.replaced(self.argument()),
            Operation::SetDelimiter => group.with_delimiter(self.argument()),
            Operation::SetTimezone => group.with_timezone(self.argument()),
            Operation::Push => group.pushed(self.argument()),
            Operation::PushFront => group.pushed_front(self.argument()),
            Operation::Pop => group.popped(),
            Operation::PopFront => group.popped_front(),
        }
    }

    /// The answer that tells the settings of `group`, beside the title of
    /// the chat.
    pub open spec fn report(self, group: GroupModel) -> (StageModel, ActionModel) {
        (
            StageModel::Done,
            ActionModel::Reply(
                ReplyModel::Status {
                    title: match self.title {
                        Some(title) => title,
                        None => Seq::empty(),
                    },
                    group,
                },
            ),
        )
    }

    /// What a request that was let through does to `group`.
    pub open spec fn proceed(self, group: GroupModel) -> (StageModel, ActionModel) {
        match self.operation {
            Operation::Status => self.report(group),
            Operation::Enable => self.attempt(self.changed(group)),
            Operation::Disable => self.keep(self.changed(group)),
            _ => self.update_template(self.changed(group)),
        }
    }

    /// The permission gate: a request on an open record goes on, one on a
    /// guarded record waits for the standing of its user, or fails where it
    /// names none.
    pub open spec fn gate(self, group: GroupModel) -> (StageModel, ActionModel) {
        match clearance(group, self.user) {
            Clearance::Granted => self.proceed(group),
            Clearance::Ask { user } => (
                StageModel::AwaitMember { group },
                ActionModel::QueryMember { chat_id: self.chat_id, user },
            ),
            Clearance::MissingUser => (StageModel::Done, ActionModel::Fail(Failure::MissingUser)),
        }
    }

    /// The first station, when `zone_known` tells whether the argument names
    /// a zone: chats that are no groups are turned away, then commands that
    /// lack their text, then zones that are not known. What is left asks for
    /// the record.
    pub open spec fn begin_given(self, zone_known: bool) -> (StageModel, ActionModel) {
        if self.title is None {
            (StageModel::Done, ActionModel::Reply(ReplyModel::GroupOnly))
        } else if self.lacks_argument() {
            (StageModel::Done, ActionModel::Reply(ReplyModel::MissingArgument(self.operation)))
        } else if self.operation == Operation::SetTimezone && !zone_known {
            (StageModel::Done, ActionModel::Reply(ReplyModel::InvalidTimezone))
        } else {
            (StageModel::AwaitRecord, ActionModel::Load { chat_id: self.chat_id })
        }
    }

    /// The first station. A zone is known where the database holds it.
    pub open spec fn begin(self) -> (StageModel, ActionModel) {
        self.begin_given(is_zone_name(self.argument()))
    }

    /// What follows when the store holds no record: a new one is made of the
    /// title of the chat and stored.
    pub open spec fn create(self) -> (StageModel, ActionModel) {
        match self.title {
            Some(title) => {
                let group = GroupModel::initial(self.chat_id, title);
                (StageModel::AwaitCreation { group }, ActionModel::Store { group })
            },
            None => (StageModel::Done, ActionModel::Reply(ReplyModel::GroupOnly)),
        }
    }

    /// What follows when the platform has answered the request to set
    /// `title`: the record remembers the title and is stored, or is stored
    /// as switched off.
    pub open spec fn settle(self, group: GroupModel, title: Seq<char>, delivered: bool) -> (
        StageModel,
        ActionModel,
    ) {
        if delivered {
            self.keep(group.applied(title, true))
        } else {
            self.give_up(group)
        }
    }

    /// The next station and the action to take when `event` comes in at
    /// `stage`.
    pub open spec fn step(self, stage: StageModel, event: EventModel) -> (StageModel, ActionModel) {
        match (stage, event) {
            (StageModel::Begin, EventModel::Start) => self.begin(),
            (StageModel::AwaitRecord, EventModel::Record(Some(group))) => self.gate(group),
            (StageModel::AwaitRecord, EventModel::Record(None)) => self.create(),
            (StageModel::AwaitCreation { group }, EventModel::Stored(_)) => self.gate(group),
            (StageModel::AwaitMember { group }, EventModel::Member(Some(status))) => {
                if is_privileged(status) {
                    self.proceed(group)
                } else {
                    (StageModel::Done, ActionModel::Reply(ReplyModel::Empty))
                }
            },
            (StageModel::AwaitMember { group }, EventModel::Member(None)) => (
                StageModel::Done,
                ActionModel::Fail(Failure::MembershipUnavailable),
            ),
            (StageModel::AwaitTitle { group, title }, EventModel::TitleSet(delivered)) => {
                self.settle(group, title, delivered)
            },
            (StageModel::AwaitStore { reply }, EventModel::Stored(true)) => (
                StageModel::Done,
                ActionModel::Reply(reply),
            ),
            (StageModel::AwaitStore { reply }, EventModel::Stored(false)) => (
                StageModel::Done,
                ActionModel::Fail(Failure::StoreUnavailable),
            ),
            _ => (StageModel::Done, ActionModel::Fail(Failure::OutOfTurn)),
        }
    }

    /// The actions that are asked for, one after the other, when `events`
    /// come in from the station `stage` on.
    pub open spec fn actions(self, stage: StageModel, events: Seq<EventModel>) -> Seq<ActionModel>
        decreases events.len(),
    {
        if events.len() == 0 {
            Seq::empty()
        } else {
            let next = self.step(stage, events.first());
            seq![next.1] + self.actions(next.0, events.drop_first())
        }
    }
}

/// Whether no event of `events` tells of a creator or an administrator.
pub open spec fn no_privilege(events: Seq<EventModel>) -> bool {
    forall|i: int|
        0 <= i < events.len() ==> match #[trigger] events[i] {
            EventModel::Member(Some(status)) => !is_privileged(status),
            _ => true,
        }
}

/// The answer of `echo`: the argument of the text, or `ECHO_FALLBACK`.
pub fn echo(text: &str) -> (out: String)
    ensures
        out@ == match after_first_space(text@) {
            Some(argument) => argument,
            None => ECHO_FALLBACK@,
        },
{
    match command_argument(text) {
        Some(argument) => argument,
        None => String::from_str(ECHO_FALLBACK),
    }
}

/// The answer to a command that came from a chat that is no group.
pub fn warn_group_only() -> (out: (Stage, Action))
    ensures
        same_step(out, (StageModel::Done, ActionModel::Reply(ReplyModel::GroupOnly))),
{
    (Stage::Done, Action::Reply(Reply::GroupOnly))
}

impl Request {
    /// The argument of the command.
    pub fn argument(&self) -> (out: String)
        ensures
            out@ == self@.argument(),
    {
        match command_argument(self.text.as_str()) {
            Some(argument) => argument,
            None => String::new(),
        }
    }

    /// Whether the command lacks the text it needs.
    pub fn lacks_argument(&self) -> (out: bool)
        ensures
            out == self@.lacks_argument(),
    {
        match self.operation {
            Operation::SetTemplate | Operation::SetTimezone => {
                command_argument(self.text.as_str()).is_none()
            },
            Operation::SetDelimiter | Operation::Push | Operation::PushFront => {
                self.argument().as_str().unicode_len() == 0
            },
            _ => false,
        }
    }

    fn confirmation(&self, group: &Group) -> (out: Reply)
        ensures
            out@ == self@.confirmation(group@),
    {
        match self.operation {
            Operation::Enable => Reply::Enabled { template: group.join_title_template() },
            Operation::Disable => Reply::Disabled,
            Operation::SetTimezone => Reply::TimezoneChanged { timezone: group.timezone.clone() },
            _ => Reply::TemplateChanged { template: group.join_title_template() },
        }
    }

    fn give_up(&self, group: Group) -> (out: (Stage, Action))
        ensures
            same_step(out, self@.give_up(group@)),
    {
        let mut group = group;
        group.enable = false;
        (Stage::AwaitStore { reply: Reply::ApplyFailed }, Action::Store { group })
    }

    fn keep(&self, group: Group) -> (out: (Stage, Action))
        ensures
            same_step(out, self@.keep(group@)),
    {
        let reply: Reply = self.confirmation(&group);
        (Stage::AwaitStore { reply }, Action::Store { group })
    }

    /// What follows when the template of `group` gave `outcome`: the title
    /// is asked to be set, or the group is stored as switched off where
    /// there is no title to send.
    pub fn attempt_given(&self, group: Group, outcome: Result<String, TitleError>) -> (out: (
        Stage,
        Action,
    ))
        ensures
            same_step(
                out,
                self@.attempt_given(
                    group@,
                    match outcome {
                        Ok(title) => Ok(title@),
                        Err(e) => Err(e),
                    },
                ),
            ),
    {
        match outcome {
            Ok(title) => {
                let chat_id: ChatId = group.id;
                let sent: String = title.clone();
                (Stage::AwaitTitle { group, title }, Action::SetTitle { chat_id, title: sent })
            },
            Err(_) => self.give_up(group),
        }
    }

    fn attempt(&self, group: Group) -> (out: (Stage, Action))
        ensures
            same_step(out, self@.attempt(group@)),
    {
        let outcome: Result<String, TitleError> = group.apply_template(self.instant_millis);
        self.attempt_given(group, outcome)
    }

    /// What follows a change of the template, the delimiter or the zone:
    /// where the group is switched on its title is applied, and the group is
    /// switched off if that fails; the record is stored either way, and the
    /// answer tells the template.
    pub fn update_template(&self, group: Group) -> (out: (Stage, Action))
        ensures
            same_step(out, self@.update_template(group@)),
    {
        if group.enable {
            self.attempt(group)
        } else {
            self.keep(group)
        }
    }

    /// Tells the settings of the group.
    pub fn status(&self, group: Group) -> (out: (Stage, Action))
        ensures
            same_step(out, self@.report(group@)),
    {
        let title: String = match get_group_title(&self.chat) {
            Some(title) => String::from_str(title),
            None => String::new(),
        };
        (Stage::Done, Action::Reply(Reply::Status { title, group }))
    }

    /// Switches the group on and applies its title at once; the group is
    /// stored as switched off where that fails.
    pub fn enable(&self, group: Group) -> (out: (Stage, Action))
        ensures
            same_step(out, self@.attempt(group@.with_enable(true))),
    {
        let mut group = group;
        group.enable = true;
        self.attempt(group)
    }

    /// Switches the group off. No title is rendered.
    pub fn disable(&self, group: Group) -> (out: (Stage, Action))
        ensures
            same_step(out, self@.keep(group@.with_enable(false))),
    {
        let mut group = group;
        group.enable = false;
        self.keep(group)
    }

    /// Makes the argument the only segment of the template.
    pub fn set_template(&self, group: Group) -> (out: (Stage, Action))
        ensures
            same_step(out, self@.update_template(group@.replaced(self@.argument()))),
    {
        let mut group = group;
        group.clear_title_template();
        group.push_title_template(self.argument().as_str());
        self.update_template(group)
    }

    /// Makes the argument the delimiter.
    pub fn set_delimiter(&self, group: Group) -> (out: (Stage, Action))
        ensures
            same_step(out, self@.update_template(group@.with_delimiter(self@.argument()))),
    {
        let mut group = group;
        group.delimiter = self.argument();
        self.update_template(group)
    }

    /// Makes the argument the zone of the group.
    pub fn set_timezone(&self, group: Group) -> (out: (Stage, Action))
        ensures
            same_step(out, self@.update_template(group@.with_timezone(self@.argument()))),
    {
        let mut group = group;
        group.timezone = self.argument();
        self.update_template(group)
    }

    /// Adds the argument as the last segment.
    pub fn push(&self, group: Group) -> (out: (Stage, Action))
        ensures
            same_step(out, self@.update_template(group@.pushed(self@.argument()))),
    {
        let mut group = group;
        group.push_title_template(self.argument().as_str());
        self.update_template(group)
    }

    /// Adds the argument as the first segment.
    pub fn push_front(&self, group: Group) -> (out: (Stage, Action))
        ensures
            same_step(out, self@.update_template(group@.pushed_front(self@.argument()))),
    {
        let mut group = group;
        group.push_front_title_template(self.argument().as_str());
        self.update_template(group)
    }

    /// Removes the last segment, unless it is the only one.
    pub fn pop(&self, group: Group) -> (out: (Stage, Action))
        ensures
            same_step(out, self@.update_template(group@.popped())),
    {
        let mut group = group;
        group.pop_title_template();
        self.update_template(group)
    }

    /// Removes the first segment, unless it is the only one.
    pub fn pop_front(&self, group: Group) -> (out: (Stage, Action))
        ensures
            same_step(out, self@.update_template(group@.popped_front())),
    {
        let mut group = group;
        group.pop_front_title_template();
        self.update_template(group)
    }

    /// What a request that was let through does to `group`.
    pub fn proceed(&self, group: Group) -> (out: (Stage, Action))
        ensures
            same_step(out, self@.proceed(group@)),
    {
        match self.operation {
            Operation::Status => self.status(group),
            Operation::Enable => self.enable(group),
            Operation::Disable => self.disable(group),
            Operation::SetTemplate => self.set_template(group),
            Operation::SetDelimiter => self.set_delimiter(group),
            Operation::SetTimezone => self.set_timezone(group),
            Operation::Push => self.push(group),
            Operation::PushFront => self.push_front(group),
            Operation::Pop => self.pop(group),
            Operation::PopFront => self.pop_front(group),
        }
    }

    fn gate(&self, group: Group) -> (out: (Stage, Action))
        ensures
            same_step(out, self@.gate(group@)),
    {
        match check_permission(&group, self.user) {
            Clearance::Granted => self.proceed(group),
            Clearance::Ask { user } => (
                Stage::AwaitMember { group },
                Action::QueryMember { chat_id: self.chat_id, user },
            ),
            Clearance::MissingUser => (Stage::Done, Action::Fail(Failure::MissingUser)),
        }
    }

    /// The first station, when `zone_known` tells whether the argument names
    /// a zone.
    pub fn begin_given(&self, zone_known: bool) -> (out: (Stage, Action))
        ensures
            same_step(out, self@.begin_given(zone_known)),
    {
        if get_group_title(&self.chat).is_none() {
            return warn_group_only();
        }
        if self.lacks_argument() {
            return (Stage::Done, Action::Reply(Reply::MissingArgument(self.operation)));
        }
        if self.operation == Operation::SetTimezone && !zone_known {
            return (Stage::Done, Action::Reply(Reply::InvalidTimezone));
        }
        (Stage::AwaitRecord, Action::Load { chat_id: self.chat_id })
    }

    fn begin(&self) -> (out: (Stage, Action))
        ensures
            same_step(out, self@.begin()),
    {
        let zone_known: bool = match self.operation {
            Operation::SetTimezone => lookup_zone(self.argument().as_str()).is_some(),
            _ => true,
        };
        self.begin_given(zone_known)
    }

    fn create(&self) -> (out: (Stage, Action))
        ensures
            same_step(out, self@.create()),
    {
        if get_group_title(&self.chat).is_none() {
            return warn_group_only();
        }
        let group: Group = Group::new(&self.chat_id, &self.chat);
        let stored: Group = group.clone();
        (Stage::AwaitCreation { group }, Action::Store { group: stored })
    }

    fn settle(&self, group: Group, title: String, delivered: bool) -> (out: (Stage, Action))
        ensures
            same_step(out, self@.settle(group@, title@, delivered)),
    {
        let mut group = group;
        if group.update_title(title, delivered) {
            self.keep(group)
        } else {
            self.give_up(group)
        }
    }

    /// Takes `event` at the station `stage`, and gives the next station and
    /// the action to take. After `Reply` and `Fail` the request is over.
    pub fn step(&self, stage: Stage, event: Event) -> (out: (Stage, Action))
        ensures
            same_step(out, self@.step(stage@, event@)),
    {
        match stage {
            Stage::Begin => match event {
                Event::Start => self.begin(),
                _ => (Stage::Done, Action::Fail(Failure::OutOfTurn)),
            },
            Stage::AwaitRecord => match event {
                Event::Record(Some(group)) => self.gate(group),
                Event::Record(None) => self.create(),
                _ => (Stage::Done, Action::Fail(Failure::OutOfTurn)),
            },
            Stage::AwaitCreation { group } => match event {
                Event::Stored(_) => self.gate(group),
                _ => (Stage::Done, Action::Fail(Failure::OutOfTurn)),
            },
            Stage::AwaitMember { group } => match event {
                Event::Member(Some(status)) => {
                    if is_admin(status) {
                        self.proceed(group)
                    } else {
                        (Stage::Done, Action::Reply(Reply::Empty))
                    }
                },
                Event::Member(None) => (
                    Stage::Done,
                    Action::Fail(Failure::MembershipUnavailable),
                ),
                _ => (Stage::Done, Action::Fail(Failure::OutOfTurn)),
            },
            Stage::AwaitTitle { group, title } => match event {
                Event::TitleSet(delivered) => self.settle(group, title, delivered),
                _ => (Stage::Done, Action::Fail(Failure::OutOfTurn)),
            },
            Stage::AwaitStore { reply } => match event {
                Event::Stored(true) => (Stage::Done, Action::Reply(reply)),
                Event::Stored(false) => (Stage::Done, Action::Fail(Failure::StoreUnavailable)),
                _ => (Stage::Done, Action::Fail(Failure::OutOfTurn)),
            },
            Stage::Done => (Stage::Done, Action::Fail(Failure::OutOfTurn)),
        }
    }
}

/// A request that is over stays over: whatever comes in, nothing is asked
/// for any more.
pub proof fn lemma_done_is_final(request: RequestModel, events: Seq<EventModel>)
    ensures
        request.actions(StageModel::Done, events).len() == events.len(),
        forall|i: int|
            0 <= i < events.len() ==> #[trigger] request.actions(StageModel::Done, events)[i]
                == ActionModel::Fail(Failure::OutOfTurn),
    decreases events.len(),
{
    if events.len() > 0 {
        lemma_done_is_final(request, events.drop_first());
        let rest = request.actions(StageModel::Done, events.drop_first());
        assert forall|i: int| 0 <= i < events.len() implies #[trigger] request.actions(
            StageModel::Done,
            events,
        )[i] == ActionModel::Fail(Failure::OutOfTurn) by {
            if i > 0 {
                assert(request.actions(StageModel::Done, events)[i] == rest[i - 1]);
            }
        }
    }
}

/// The permission gate holds. When the store holds a guarded record and the
/// platform tells of no creator or administrator, then whatever the command
/// and whatever else comes in, the store is never written to and no title is
/// set: the record stays as it is. A user whose standing was told is
/// answered with silence.
pub proof fn lemma_guarded_record_stays(
    request: RequestModel,
    group: GroupModel,
    events: Seq<EventModel>,
)
    requires
        group.require_admin,
        no_privilege(events),
    ensures
        forall|i: int|
            0 <= i < events.len() + 1 ==> {
                let action = #[trigger] request.actions(
                    StageModel::AwaitRecord,
                    seq![EventModel::Record(Some(group))] + events,
                )[i];
                !action.writes() && !action.sets_title()
            },
        forall|status: MemberStatus|
            !is_privileged(status) ==> #[trigger] request.step(
                StageModel::AwaitMember { group },
                EventModel::Member(Some(status)),
            ) == (StageModel::Done, ActionModel::Reply(ReplyModel::Empty)),
{
    let all = seq![EventModel::Record(Some(group))] + events;
    let first = request.step(StageModel::AwaitRecord, all.first());
    assert(all.first() == EventModel::Record(Some(group)));
    assert(all.drop_first() =~= events);
    let trace = request.actions(StageModel::AwaitRecord, all);
    assert(trace == seq![first.1] + request.actions(first.0, events));
    assert(!first.1.writes() && !first.1.sets_title());
    if events.len() == 0 {
    } else {
        let second = request.step(first.0, events.first());
        let tail = events.drop_first();
        assert(events[0] == events.first());
        assert(second.0 == StageModel::Done);
        assert(!second.1.writes() && !second.1.sets_title());
        lemma_done_is_final(request, tail);
        let rest = request.actions(StageModel::Done, tail);
        assert(request.actions(first.0, events) == seq![second.1] + rest);
        assert forall|i: int| 0 <= i < events.len() + 1 implies {
            let action = #[trigger] trace[i];
            !action.writes() && !action.sets_title()
        } by {
            if i >= 2 {
                assert(trace[i] == rest[i - 2]);
            }
        }
    }
}

/// No command lets the segments run out: the record that a command makes of
/// a record with a segment holds a segment.
pub proof fn lemma_commands_keep_segments(request: RequestModel, group: GroupModel)
    requires
        group.well_formed(),
    ensures
        request.changed(group).well_formed(),
{
}

/// A group never stays switched on after its title could not be set. Where
/// the platform refuses the title, and where there is no title to send, the
/// record that is stored is switched off, and the answer tells of the
/// failure.
pub proof fn lemma_failed_apply_switches_off(
    request: RequestModel,
    group: GroupModel,
    title: Seq<char>,
)
    ensures
        request.step(StageModel::AwaitTitle { group, title }, EventModel::TitleSet(false)) == (
            StageModel::AwaitStore { reply: ReplyModel::ApplyFailed },
            ActionModel::Store { group: group.with_enable(false) },
        ),
        group.title_to_send(request.instant_millis) is Err ==> request.attempt(group) == (
            StageModel::AwaitStore { reply: ReplyModel::ApplyFailed },
            ActionModel::Store { group: group.with_enable(false) },
        ),
        !group.with_enable(false).enable,
{
}

/// The length gate holds. A title that renders empty, or longer than the
/// platform takes, is never sent: applying fails, and no request to set a
/// title goes out.
pub proof fn lemma_length_gate(request: RequestModel, group: GroupModel, title: Seq<char>)
    requires
        group.rendered(request.instant_millis) == Ok::<Seq<char>, TitleError>(title),
        title.len() == 0 || title.len() > 255,
    ensures
        group.title_to_send(request.instant_millis) == Err::<Seq<char>, TitleError>(
            TitleError::InvalidLength,
        ),
        !request.attempt(group).1.sets_title(),
        !request.update_template(group).1.sets_title(),
{
}

} // verus!
