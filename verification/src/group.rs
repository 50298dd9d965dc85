//! The record of one chat group: its title template and its settings.

use vstd::prelude::*;
use crate::calendar::{effective_zone, instant_in_range, utc_zone, LocalTime, UTC};
use crate::template::{
    check_length, instant_secs, render, rendered, same_outcome, separator_string,
    template_output, title_template, title_to_send, whole_seconds, TemplateContext, TitleError,
};
use crate::text::{join_strings, texts};

verus! {

/// The delimiter of a record that was made by default.
pub const DEFAULT_DELIMITER: &'static str = " | ";

/// The identifier of a chat.
#[derive(Clone, Copy, Debug, PartialEq, Eq, Structural)]
pub struct ChatId(pub i64);

/// What kind of chat a message came from, with the title where it has one.
#[derive(Clone, Debug, PartialEq, Eq)]
pub enum ChatKind {
    Private,
    Group { title: String },
    Supergroup { title: String },
    Channel { title: String },
    Unknown,
}

/// The title of a chat of the kind `chat`: groups, supergroups and channels
/// have one.
pub open spec fn group_title(chat: ChatKind) -> Option<Seq<char>> {
    match chat {
        ChatKind::Group { title } => Some(title@),
        ChatKind::Supergroup { title } => Some(title@),
        ChatKind::Channel { title } => Some(title@),
        _ => None,
    }
}

/// The title of the chat, if it is a group, a supergroup or a channel.
pub fn get_group_title(chat: &ChatKind) -> (out: Option<&str>)
    ensures
        out.is_some() == group_title(*chat).is_some(),
        out matches Some(title) ==> group_title(*chat) == Some(title@),
{
    match chat {
        ChatKind::Group { title } => Some(title.as_str()),
        ChatKind::Supergroup { title } => Some(title.as_str()),
        ChatKind::Channel { title } => Some(title.as_str()),
        _ => None,
    }
}

/// The number inside a chat identifier.
pub fn get_raw_chat_id(chat_id: &ChatId) -> (out: i64)
    ensures
        out == chat_id.0,
{
    chat_id.0
}

/// The configuration and last known state of one chat group.
#[derive(Debug, PartialEq, Eq)]
pub struct Group {
    /// Whether the scheduled sweep acts on this group.
    pub enable: bool,
    pub id: ChatId,
    /// The segments of the title template, in order. Never empty but between
    /// the two halves of a replacement.
    pub title_segment: Vec<String>,
    pub delimiter: String,
    /// The title that was last applied with success.
    pub last_title: String,
    /// The name of the zone in which instants are seen.
    pub timezone: String,
    /// Whether only administrators may change the record.
    pub require_admin: bool,
}

/// A record as a plain value.
pub ghost struct GroupModel {
    pub enable: bool,
    pub id: i64,
    pub title_segment: Seq<Seq<char>>,
    pub delimiter: Seq<char>,
    pub last_title: Seq<char>,
    pub timezone: Seq<char>,
    pub require_admin: bool,
}

impl GroupModel {
    /// The record of a chat that was not known before.
    pub open spec fn initial(id: i64, title: Seq<char>) -> GroupModel {
        GroupModel {
            enable: false,
            id,
            title_segment: seq![title],
            delimiter: DEFAULT_DELIMITER@,
            last_title: title,
            timezone: UTC@,
            require_admin: true,
        }
    }

    /// Whether the record holds at least one segment.
    pub open spec fn well_formed(self) -> bool {
        self.title_segment.len() >= 1
    }

    /// The record with `segment` added after the last segment.
    pub open spec fn pushed(self, segment: Seq<char>) -> GroupModel {
        GroupModel { title_segment: self.title_segment.push(segment), ..self }
    }

    /// The record with `segment` added before the first segment.
    pub open spec fn pushed_front(self, segment: Seq<char>) -> GroupModel {
        GroupModel { title_segment: self.title_segment.insert(0, segment), ..self }
    }

    /// The record without its last segment; unchanged where it holds only one.
    pub open spec fn popped(self) -> GroupModel {
        if self.title_segment.len() > 1 {
            GroupModel { title_segment: self.title_segment.drop_last(), ..self }
        } else {
            self
        }
    }

    /// The record without its first segment; unchanged where it holds only one.
    pub open spec fn popped_front(self) -> GroupModel {
        if self.title_segment.len() > 1 {
            GroupModel { title_segment: self.title_segment.remove(0), ..self }
        } else {
            self
        }
    }

    /// The record without any segment.
    pub open spec fn cleared(self) -> GroupModel {
        GroupModel { title_segment: Seq::empty(), ..self }
    }

    /// The record with `segment` as its only segment.
    pub open spec fn replaced(self, segment: Seq<char>) -> GroupModel {
        self.cleared().pushed(segment)
    }

    /// The record with another delimiter.
    pub open spec fn with_delimiter(self, delimiter: Seq<char>) -> GroupModel {
        GroupModel { delimiter, ..self }
    }

    /// The record with another zone.
    pub open spec fn with_timezone(self, timezone: Seq<char>) -> GroupModel {
        GroupModel { timezone, ..self }
    }

    /// The record switched on or off.
    pub open spec fn with_enable(self, enable: bool) -> GroupModel {
        GroupModel { enable, ..self }
    }

    /// The record after `title` was applied.
    pub open spec fn with_last_title(self, title: Seq<char>) -> GroupModel {
        GroupModel { last_title: title, ..self }
    }

    /// The template of the title.
    pub open spec fn template(self) -> Seq<char> {
        title_template(self.title_segment, self.delimiter)
    }

    /// The title that the record gives at `instant_millis`, whatever its length.
    pub open spec fn rendered(self, instant_millis: u64) -> Result<Seq<char>, TitleError> {
        rendered(self.title_segment, self.delimiter, instant_millis, self.timezone)
    }

    /// The title to send at `instant_millis`.
    pub open spec fn title_to_send(self, instant_millis: u64) -> Result<Seq<char>, TitleError> {
        title_to_send(self.title_segment, self.delimiter, instant_millis, self.timezone)
    }

    /// The record after an attempt to apply `title`: it remembers the title
    /// where the platform took it, and is unchanged otherwise.
    pub open spec fn applied(self, title: Seq<char>, delivered: bool) -> GroupModel {
        if delivered {
            self.with_last_title(title)
        } else {
            self
        }
    }
}

/// One change to the segments of a template.
pub ghost enum SegmentChange {
    Push(Seq<char>),
    PushFront(Seq<char>),
    Pop,
    PopFront,
}

impl GroupModel {
    /// The record after `change`.
    pub open spec fn changed_by(self, change: SegmentChange) -> GroupModel {
        match change {
            SegmentChange::Push(segment) => self.pushed(segment),
            SegmentChange::PushFront(segment) => self.pushed_front(segment),
            SegmentChange::Pop => self.popped(),
            SegmentChange::PopFront => self.popped_front(),
        }
    }

    /// The record after `changes`, one after the other.
    pub open spec fn changed_by_all(self, changes: Seq<SegmentChange>) -> GroupModel
        decreases changes.len(),
    {
        if changes.len() == 0 {
            self
        } else {
            self.changed_by_all(changes.drop_last()).changed_by(changes.last())
        }
    }
}

impl View for Group {
    type V = GroupModel;

    open spec fn view(&self) -> GroupModel {
        GroupModel {
            enable: self.enable,
            id: self.id.0,
            title_segment: texts(self.title_segment@),
            delimiter: self.delimiter@,
            last_title: self.last_title@,
            timezone: self.timezone@,
            require_admin: self.require_admin,
        }
    }
}

impl Clone for Group {
    fn clone(&self) -> (out: Group)
        ensures
            out@ == self@,
    {
        let mut title_segment: Vec<String> = Vec::new();
        let mut i: usize = 0;
        while i < self.title_segment.len()
            invariant
                i <= self.title_segment@.len(),
                title_segment@.len() == i,
                forall|k: int| 0 <= k < i ==> (#[trigger] title_segment@[k])@ == self.title_segment@[k]@,
            decreases self.title_segment@.len() - i,
        {
            title_segment.push(self.title_segment[i].clone());
            i = i + 1;
        }
        assert(texts(title_segment@) =~= texts(self.title_segment@));
        Group {
            enable: self.enable,
            id: self.id,
            title_segment,
            delimiter: self.delimiter.clone(),
            last_title: self.last_title.clone(),
            timezone: self.timezone.clone(),
            require_admin: self.require_admin,
        }
    }
}

impl Group {
    /// The record of a chat that was not known before: named after the
    /// chat's title, switched off, in universal time, with the title as its
    /// only segment, and open to administrators only.
    pub fn new(chat_id: &ChatId, chat_type: &ChatKind) -> (out: Group)
        requires
            group_title(*chat_type).is_some(),
        ensures
            out@ == GroupModel::initial(chat_id.0, group_title(*chat_type).unwrap()),
            out@.well_formed(),
    {
        let title: &str = match get_group_title(chat_type) {
            Some(title) => title,
            None => vstd::pervasive::unreached(),
        };
        let mut title_segment: Vec<String> = Vec::new();
        title_segment.push(String::from_str(title));
        let out = Group {
            enable: false,
            id: *chat_id,
            title_segment,
            delimiter: String::from_str(DEFAULT_DELIMITER),
            last_title: String::from_str(title),
            timezone: utc_zone(),
            require_admin: true,
        };
        assert(out@.title_segment =~= seq![title@]);
        out
    }

    /// Adds `new_segment` after the last segment.
    pub fn push_title_template(&mut self, new_segment: &str)
        ensures
            final(self)@ == old(self)@.pushed(new_segment@),
            final(self)@.well_formed(),
    {
        self.title_segment.push(String::from_str(new_segment));
        assert(final(self)@.title_segment =~= old(self)@.title_segment.push(new_segment@));
    }

    /// Adds `new_segment` before the first segment.
    pub fn push_front_title_template(&mut self, new_segment: &str)
        ensures
            final(self)@ == old(self)@.pushed_front(new_segment@),
            final(self)@.well_formed(),
    {
        self.title_segment.insert(0, String::from_str(new_segment));
        assert(final(self)@.title_segment =~= old(self)@.title_segment.insert(0, new_segment@));
    }

    /// Removes the last segment, unless it is the only one.
    pub fn pop_title_template(&mut self)
        ensures
            final(self)@ == old(self)@.popped(),
            old(self)@.well_formed() ==> final(self)@.well_formed(),
    {
        if self.title_segment.len() > 1 {
            self.title_segment.pop();
            assert(final(self)@.title_segment =~= old(self)@.title_segment.drop_last());
        }
    }

    /// Removes the first segment, unless it is the only one.
    pub fn pop_front_title_template(&mut self)
        ensures
            final(self)@ == old(self)@.popped_front(),
            old(self)@.well_formed() ==> final(self)@.well_formed(),
    {
        if self.title_segment.len() > 1 {
            self.title_segment.remove(0);
            assert(final(self)@.title_segment =~= old(self)@.title_segment.remove(0));
        }
    }

    /// Removes every segment. The record is not well formed until a segment
    /// is pushed again.
    pub fn clear_title_template(&mut self)
        ensures
            final(self)@ == old(self)@.cleared(),
    {
        self.title_segment.clear();
        assert(final(self)@.title_segment =~= Seq::<Seq<char>>::empty());
    }

    /// The instant `instant_millis` seen in the zone of the record, or in
    /// universal time where the record names no zone of the database.
    pub fn get_time(&self, instant_millis: u64) -> (out: Option<LocalTime>)
        ensures
            out.is_some() == instant_in_range(instant_secs(instant_millis)),
            out matches Some(local) ==> local.secs() == instant_secs(instant_millis)
                && local.zone() == effective_zone(self@.timezone),
    {
        LocalTime::new(whole_seconds(instant_millis), self.timezone.as_str())
    }

    /// The title that was last applied with success.
    pub fn get_last_title(&self) -> (out: &str)
        ensures
            out@ == self@.last_title,
    {
        self.last_title.as_str()
    }

    /// The template of the title: the segments joined by the delimiter
    /// between single spaces.
    pub fn join_title_template(&self) -> (out: String)
        ensures
            out@ == self@.template(),
    {
        join_strings(&self.title_segment, separator_string(self.delimiter.as_str()).as_str())
    }

    /// The title that the template gives with the values of `context`. It
    /// fails with `InvalidTemplate` exactly where a placeholder has no value.
    pub fn get_new_title(&self, context: &TemplateContext) -> (out: Result<String, TitleError>)
        ensures
            same_outcome(
                out,
                match template_output(self@.template(), context@) {
                    Some(title) => Ok(title),
                    None => Err(TitleError::InvalidTemplate),
                },
            ),
    {
        let template: String = self.join_title_template();
        match context.expand(template.as_str()) {
            Some(title) => Ok(title),
            None => Err(TitleError::InvalidTemplate),
        }
    }

    /// The first half of applying the template: the title to send to the
    /// platform at `instant_millis`. Where the template does not render, or
    /// renders to a title that is empty or too long, there is nothing to
    /// send and the attempt has failed.
    pub fn apply_template(&self, instant_millis: u64) -> (out: Result<String, TitleError>)
        ensures
            same_outcome(out, self@.title_to_send(instant_millis)),
    {
        match render(
            &self.title_segment,
            self.delimiter.as_str(),
            instant_millis,
            self.timezone.as_str(),
        ) {
            Ok(title) => check_length(title),
            Err(e) => Err(e),
        }
    }

    /// The second half of applying the template: takes note of what the
    /// platform answered when `title` was sent. The title is remembered
    /// where it was taken; `enable` is never touched.
    pub fn update_title(&mut self, title: String, delivered: bool) -> (out: bool)
        ensures
            out == delivered,
            final(self)@ == old(self)@.applied(title@, delivered),
    {
        if delivered {
            self.last_title = title;
        }
        delivered
    }
}

/// The segments never run out. Whatever is pushed to and popped from a
/// record that holds a segment, in whatever order, it holds a segment after
/// every single change. Nothing but the segments is touched.
pub proof fn lemma_segments_never_run_out(group: GroupModel, changes: Seq<SegmentChange>)
    requires
        group.well_formed(),
    ensures
        forall|n: int|
            0 <= n <= changes.len() ==> (#[trigger] group.changed_by_all(
                changes.take(n),
            )).well_formed(),
        group.changed_by_all(changes).well_formed(),
        group.changed_by_all(changes) == (GroupModel {
            title_segment: group.changed_by_all(changes).title_segment,
            ..group
        }),
    decreases changes.len(),
{
    if changes.len() > 0 {
        let head = changes.drop_last();
        lemma_segments_never_run_out(group, head);
        assert forall|n: int| 0 <= n <= changes.len() implies (#[trigger] group.changed_by_all(
            changes.take(n),
        )).well_formed() by {
            if n < changes.len() {
                assert(changes.take(n) == head.take(n));
            } else {
                assert(changes.take(n) == changes);
            }
        }
    } else {
        assert forall|n: int| 0 <= n <= changes.len() implies (#[trigger] group.changed_by_all(
            changes.take(n),
        )).well_formed() by {
            assert(changes.take(n) == changes);
        }
    }
}

/// Popping from a record that holds a single segment changes nothing, at
/// either end.
pub proof fn lemma_pop_keeps_last_segment(group: GroupModel)
    requires
        group.title_segment.len() == 1,
    ensures
        group.popped() == group,
        group.popped_front() == group,
{
}

} // verus!
