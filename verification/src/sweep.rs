//! The scheduled sweep: the titles of all groups that are switched on are
//! rendered anew and applied, one group after the other.
//!
//! The sweep walks the names of the stored records. A name that is no chat
//! identifier is passed over, and so is a record that cannot be read or is
//! switched off. Where the title of a group cannot be rendered or set, the
//! sweep goes on to the next group and leaves the record as it is; it does
//! not switch the group off. Where the title was set, the record is stored
//! with the new title. Nothing that happens to one group keeps the sweep
//! from the groups after it.

use vstd::prelude::*;
use crate::group::{ChatId, Group, GroupModel};
use crate::protocol::{Action, ActionModel, Event, EventModel};
use crate::store::{chat_of_name, parse_chat_id};
use crate::template::TitleError;
use crate::text::texts;

verus! {

/// One sweep: the names to walk, and the instant for which titles are
/// rendered.
#[derive(Clone, Debug, PartialEq, Eq)]
pub struct Sweep {
    /// The names of the stored records, as the listing gathered them.
    pub names: Vec<String>,
    /// When the sweep runs, in milliseconds since the epoch.
    pub instant_millis: u64,
}

/// A sweep as a plain value.
pub ghost struct SweepModel {
    pub names: Seq<Seq<char>>,
    pub instant_millis: u64,
}

impl View for Sweep {
    type V = SweepModel;

    open spec fn view(&self) -> SweepModel {
        SweepModel { names: texts(self.names@), instant_millis: self.instant_millis }
    }
}

/// Where a sweep stands.
#[derive(Clone, Debug, PartialEq, Eq)]
pub enum SweepStage {
    /// The name at `position` is looked at next.
    Next { position: usize },
    /// The record of the name at `position` was asked for.
    AwaitRecord { position: usize },
    /// The platform was asked to set `title` for the group at `position`.
    AwaitTitle { position: usize, group: Group, title: String },
    /// The record of the group at `position` is being stored.
    AwaitStore { position: usize },
    /// All names were walked.
    Done,
}

/// The place of a sweep as a plain value.
pub ghost enum SweepStageModel {
    Next { position: int },
    AwaitRecord { position: int },
    AwaitTitle { position: int, group: GroupModel, title: Seq<char> },
    AwaitStore { position: int },
    Done,
}

impl View for SweepStage {
    type V = SweepStageModel;

    open spec fn view(&self) -> SweepStageModel {
        match *self {
            SweepStage::Next { position } => SweepStageModel::Next { position: position as int },
            SweepStage::AwaitRecord { position } => SweepStageModel::AwaitRecord {
                position: position as int,
            },
            SweepStage::AwaitTitle { position, group, title } => SweepStageModel::AwaitTitle {
                position: position as int,
                group: group@,
                title: title@,
            },
            SweepStage::AwaitStore { position } => SweepStageModel::AwaitStore {
                position: position as int,
            },
            SweepStage::Done => SweepStageModel::Done,
        }
    }
}

impl SweepStageModel {
    /// The position of the name that the sweep is busy with; past the last
    /// name once the sweep is over.
    pub open spec fn position(self, sweep: SweepModel) -> int {
        match self {
            SweepStageModel::Next { position } => position,
            SweepStageModel::AwaitRecord { position } => position,
            SweepStageModel::AwaitTitle { position, .. } => position,
            SweepStageModel::AwaitStore { position } => position,
            SweepStageModel::Done => sweep.names.len() as int,
        }
    }

    /// How far the sweep has come with the name it is busy with.
    pub open spec fn progress(self) -> int {
        match self {
            SweepStageModel::Next { .. } => 0,
            SweepStageModel::AwaitRecord { .. } => 1,
            SweepStageModel::AwaitTitle { .. } => 2,
            SweepStageModel::AwaitStore { .. } => 3,
            SweepStageModel::Done => 4,
        }
    }
}

/// Whether `out` is the place and action that `model` names.
pub open spec fn same_move(out: (SweepStage, Action), model: (SweepStageModel, ActionModel)) -> bool {
    out.0@ == model.0 && out.1@ == model.1
}

impl SweepModel {
    /// Goes on with the first name at or after `from` that is a chat
    /// identifier, and asks for its record; the sweep is over where there is
    /// none.
    pub open spec fn advance(self, from: int) -> (SweepStageModel, ActionModel)
        decreases self.names.len() - from,
    {
        if from < 0 || from >= self.names.len() {
            (SweepStageModel::Done, ActionModel::Finish)
        } else {
            match chat_of_name(self.names[from]) {
                Some(chat_id) => (
                    SweepStageModel::AwaitRecord { position: from },
                    ActionModel::Load { chat_id },
                ),
                None => self.advance(from + 1),
            }
        }
    }

    /// What the sweep does with the record `group` of the name at
    /// `position` when its template gave `outcome`: a group that is switched
    /// on and has a title to send gets it sent; any other is passed over.
    pub open spec fn visit_given(
        self,
        position: int,
        group: GroupModel,
        outcome: Result<Seq<char>, TitleError>,
    ) -> (SweepStageModel, ActionModel) {
        if group.enable {
            match outcome {
                Ok(title) => (
                    SweepStageModel::AwaitTitle { position, group, title },
                    ActionModel::SetTitle { chat_id: group.id, title },
                ),
                Err(_) => self.advance(position + 1),
            }
        } else {
            self.advance(position + 1)
        }
    }

    /// What the sweep does with the record `group` of the name at
    /// `position`.
    pub open spec fn visit(self, position: int, group: GroupModel) -> (SweepStageModel, ActionModel) {
        self.visit_given(position, group, group.title_to_send(self.instant_millis))
    }

    /// The next place and the action to take when `event` comes in at
    /// `stage`. An event that tells of a failure, or that answers nothing
    /// that was asked, ends the work on the group at hand and no more.
    pub open spec fn step(self, stage: SweepStageModel, event: EventModel) -> (
        SweepStageModel,
        ActionModel,
    ) {
        match stage {
            SweepStageModel::Next { position } => self.advance(position),
            SweepStageModel::AwaitRecord { position } => match event {
                EventModel::Record(Some(group)) => self.visit(position, group),
                _ => self.advance(position + 1),
            },
            SweepStageModel::AwaitTitle { position, group, title } => match event {
                EventModel::TitleSet(true) => (
                    SweepStageModel::AwaitStore { position },
                    ActionModel::Store { group: group.applied(title, true) },
                ),
                _ => self.advance(position + 1),
            },
            SweepStageModel::AwaitStore { position } => self.advance(position + 1),
            SweepStageModel::Done => (SweepStageModel::Done, ActionModel::Finish),
        }
    }
}

/// What the store and the platform hold in stock for one sweep: for the
/// name at each position, the record that the store gives, whether the
/// platform sets the title, and whether the store takes the record.
pub ghost struct World {
    pub records: Seq<Option<GroupModel>>,
    pub delivered: Seq<bool>,
    pub stored: Seq<bool>,
}

impl World {
    /// Whether the world has an answer for every name of `sweep`.
    pub open spec fn covers(self, sweep: SweepModel) -> bool {
        self.records.len() == sweep.names.len() && self.delivered.len() == sweep.names.len()
            && self.stored.len() == sweep.names.len()
    }

    /// The event with which the world answers what was asked at `stage`.
    pub open spec fn answer(self, stage: SweepStageModel) -> EventModel {
        match stage {
            SweepStageModel::AwaitRecord { position } => EventModel::Record(self.records[position]),
            SweepStageModel::AwaitTitle { position, .. } => EventModel::TitleSet(
                self.delivered[position],
            ),
            SweepStageModel::AwaitStore { position } => EventModel::Stored(self.stored[position]),
            _ => EventModel::Start,
        }
    }
}

impl SweepModel {
    /// Where the sweep stands after `steps` steps from `stage` in `world`.
    pub open spec fn after(self, world: World, stage: SweepStageModel, steps: nat) -> SweepStageModel
        decreases steps,
    {
        if steps == 0 {
            stage
        } else {
            self.after(world, self.step(stage, world.answer(stage)).0, (steps - 1) as nat)
        }
    }

    /// What the sweep asks for in the step that follows `steps` steps from
    /// `stage` in `world`.
    pub open spec fn asked(self, world: World, stage: SweepStageModel, steps: nat) -> ActionModel {
        let reached = self.after(world, stage, steps);
        self.step(reached, world.answer(reached)).1
    }
}

impl Sweep {
    /// A sweep over `names` at `instant_millis`. It begins at
    /// `SweepStage::Next { position: 0 }`.
    pub fn new(names: Vec<String>, instant_millis: u64) -> (out: Sweep)
        ensures
            out@ == (SweepModel { names: texts(names@), instant_millis }),
    {
        Sweep { names, instant_millis }
    }

    fn advance(&self, from: usize) -> (out: (SweepStage, Action))
        ensures
            same_move(out, self@.advance(from as int)),
    {
        let n: usize = self.names.len();
        let mut position: usize = from;
        while position < n
            invariant
                n == self.names@.len(),
                from <= position,
                self@.advance(position as int) == self@.advance(from as int),
            decreases n - position,
        {
            match parse_chat_id(self.names[position].as_str()) {
                Some(chat_id) => {
                    return (SweepStage::AwaitRecord { position }, Action::Load { chat_id });
                },
                None => {},
            }
            position = position + 1;
        }
        (SweepStage::Done, Action::Finish)
    }

    fn pass(&self, position: usize) -> (out: (SweepStage, Action))
        ensures
            same_move(out, self@.advance(position + 1)),
    {
        if position < self.names.len() {
            self.advance(position + 1)
        } else {
            (SweepStage::Done, Action::Finish)
        }
    }

    /// What the sweep does with the record `group` of the name at
    /// `position` when its template gave `outcome`.
    pub fn visit_given(
        &self,
        position: usize,
        group: Group,
        outcome: Result<String, TitleError>,
    ) -> (out: (SweepStage, Action))
        ensures
            same_move(
                out,
                self@.visit_given(
                    position as int,
                    group@,
                    match outcome {
                        Ok(title) => Ok(title@),
                        Err(e) => Err(e),
                    },
                ),
            ),
    {
        if !group.enable {
            return self.pass(position);
        }
        match outcome {
            Ok(title) => {
                let chat_id: ChatId = group.id;
                let sent: String = title.clone();
                (
                    SweepStage::AwaitTitle { position, group, title },
                    Action::SetTitle { chat_id, title: sent },
                )
            },
            Err(_) => self.pass(position),
        }
    }

    fn visit(&self, position: usize, group: Group) -> (out: (SweepStage, Action))
        ensures
            same_move(out, self@.visit(position as int, group@)),
    {
        if !group.enable {
            return self.pass(position);
        }
        let outcome: Result<String, TitleError> = group.apply_template(self.instant_millis);
        self.visit_given(position, group, outcome)
    }
}

/// One step of the scheduled sweep: takes `event` at the place `stage`, and
/// gives the next place and the action to take. The sweep is over when
/// `Finish` comes out.
pub fn handle_scheduled(sweep: &Sweep, stage: SweepStage, event: Event) -> (out: (SweepStage, Action))
    ensures
        same_move(out, sweep@.step(stage@, event@)),
{
    match stage {
        SweepStage::Next { position } => sweep.advance(position),
        SweepStage::AwaitRecord { position } => match event {
            Event::Record(Some(group)) => sweep.visit(position, group),
            _ => sweep.pass(position),
        },
        SweepStage::AwaitTitle { position, group, title } => match event {
            Event::TitleSet(true) => {
                let mut group = group;
                group.update_title(title, true);
                (SweepStage::AwaitStore { position }, Action::Store { group })
            },
            _ => sweep.pass(position),
        },
        SweepStage::AwaitStore { position } => sweep.pass(position),
        SweepStage::Done => (SweepStage::Done, Action::Finish),
    }
}

/// Going on from `from` stops at the first name at or after it that is a
/// chat identifier, and asks for the record of that chat.
pub proof fn lemma_advance_stops_at_next_chat(sweep: SweepModel, from: int, target: int)
    requires
        0 <= from <= target < sweep.names.len(),
        chat_of_name(sweep.names[target]) is Some,
    ensures
        sweep.advance(from).0 is AwaitRecord,
        from <= sweep.advance(from).0.position(sweep) <= target,
        sweep.advance(from).1 == (ActionModel::Load {
            chat_id: chat_of_name(
                sweep.names[sweep.advance(from).0.position(sweep)],
            ).unwrap(),
        }),
    decreases target - from,
{
    if chat_of_name(sweep.names[from]) is None {
        lemma_advance_stops_at_next_chat(sweep, from + 1, target);
    }
}

/// Whether a sweep at `stage` has yet to ask for the record of the name at
/// `target`.
pub open spec fn before(sweep: SweepModel, stage: SweepStageModel, target: int) -> bool {
    0 <= stage.position(sweep) <= target && (stage.position(sweep) < target || stage.progress()
        <= 1)
}

/// Whatever the store and the platform answer for the names before it, the
/// sweep comes to ask for the record of every name that is a chat
/// identifier. The number of steps it takes is given back.
pub proof fn lemma_sweep_reaches(
    sweep: SweepModel,
    world: World,
    stage: SweepStageModel,
    target: int,
) -> (steps: nat)
    requires
        0 <= target < sweep.names.len(),
        chat_of_name(sweep.names[target]) is Some,
        before(sweep, stage, target),
    ensures
        sweep.after(world, stage, steps) == (SweepStageModel::AwaitRecord { position: target }),
    decreases target - stage.position(sweep), 4 - stage.progress(),
{
    if stage == (SweepStageModel::AwaitRecord { position: target }) {
        0
    } else {
        let position = stage.position(sweep);
        let next = sweep.step(stage, world.answer(stage)).0;
        if stage is Next {
            lemma_advance_stops_at_next_chat(sweep, position, target);
        } else if position < target {
            lemma_advance_stops_at_next_chat(sweep, position + 1, target);
        }
        let rest = lemma_sweep_reaches(sweep, world, next, target);
        rest + 1
    }
}

/// No group is held up by another. Take any sweep and any answers of the
/// store and the platform. A group whose name is a chat identifier, whose
/// record the store gives, which is switched on and has a title to send, is
/// asked to be given that title, whatever became of the groups before it:
/// unreadable records, titles that do not render, refusals of the platform.
/// Where the platform sets the title, the record is stored next with the
/// title it was given.
pub proof fn lemma_sweep_isolation(
    sweep: SweepModel,
    world: World,
    target: int,
    group: GroupModel,
    title: Seq<char>,
) -> (steps: nat)
    requires
        world.covers(sweep),
        0 <= target < sweep.names.len(),
        chat_of_name(sweep.names[target]) is Some,
        world.records[target] == Some(group),
        group.enable,
        group.title_to_send(sweep.instant_millis) == Ok::<Seq<char>, TitleError>(title),
    ensures
        sweep.asked(world, SweepStageModel::Next { position: 0 }, steps) == (ActionModel::SetTitle {
            chat_id: group.id,
            title,
        }),
        world.delivered[target] ==> sweep.asked(
            world,
            SweepStageModel::Next { position: 0 },
            steps + 1,
        ) == (ActionModel::Store { group: group.applied(title, true) }),
{
    let start = SweepStageModel::Next { position: 0 };
    let steps = lemma_sweep_reaches(sweep, world, start, target);
    lemma_after_one_more(sweep, world, start, steps);
    steps
}

/// One more step from where `steps` steps lead is where `steps + 1` steps
/// lead.
pub proof fn lemma_after_one_more(sweep: SweepModel, world: World, stage: SweepStageModel, steps: nat)
    ensures
        sweep.after(world, stage, steps + 1) == sweep.step(
            sweep.after(world, stage, steps),
            world.answer(sweep.after(world, stage, steps)),
        ).0,
    decreases steps,
{
    let next = sweep.step(stage, world.answer(stage)).0;
    assert(sweep.after(world, stage, steps + 1) == sweep.after(world, next, steps));
    if steps > 0 {
        lemma_after_one_more(sweep, world, next, (steps - 1) as nat);
        assert(sweep.after(world, stage, steps) == sweep.after(world, next, (steps - 1) as nat));
    } else {
        assert(sweep.after(world, next, 0) == next);
    }
}

/// Every sweep comes to an end: whatever the store and the platform answer,
/// after at most four steps for each name that is left, the sweep is over.
pub proof fn lemma_sweep_ends(sweep: SweepModel, world: World, stage: SweepStageModel) -> (steps: nat)
    requires
        0 <= stage.position(sweep) <= sweep.names.len(),
    ensures
        sweep.after(world, stage, steps) == SweepStageModel::Done,
        steps <= 4 * (sweep.names.len() - stage.position(sweep)) + 4 - stage.progress(),
    decreases sweep.names.len() - stage.position(sweep), 4 - stage.progress(),
{
    if stage is Done {
        0
    } else {
        let position = stage.position(sweep);
        let next = sweep.step(stage, world.answer(stage)).0;
        lemma_advance_moves_on(sweep, position);
        if position < sweep.names.len() {
            lemma_advance_moves_on(sweep, position + 1);
        }
        let rest = lemma_sweep_ends(sweep, world, next);
        rest + 1
    }
}

/// Going on from `from` leads to a name at or after `from`, whose record is
/// asked for, or to the end.
pub proof fn lemma_advance_moves_on(sweep: SweepModel, from: int)
    requires
        0 <= from,
    ensures
        sweep.advance(from).0 is AwaitRecord || sweep.advance(from).0 is Done,
        sweep.advance(from).0 is AwaitRecord ==> from <= sweep.advance(from).0.position(sweep)
            < sweep.names.len() && sweep.advance(from).1 is Load,
        sweep.advance(from).0 is Done ==> sweep.advance(from).1 is Finish,
    decreases sweep.names.len() - from,
{
    if from < sweep.names.len() && chat_of_name(sweep.names[from]) is None {
        lemma_advance_moves_on(sweep, from + 1);
    }
}

/// The length gate holds in the sweep. A title that renders empty, or longer
/// than the platform takes, is never sent: the group is passed over.
pub proof fn lemma_sweep_length_gate(
    sweep: SweepModel,
    position: int,
    group: GroupModel,
    title: Seq<char>,
)
    requires
        0 <= position,
        group.rendered(sweep.instant_millis) == Ok::<Seq<char>, TitleError>(title),
        title.len() == 0 || title.len() > 255,
    ensures
        sweep.visit(position, group) == sweep.advance(position + 1),
        !sweep.visit(position, group).1.sets_title(),
{
    lemma_advance_moves_on(sweep, position + 1);
}

/// The sweep switches no group on or off. The only record it stores is
/// that of a group whose title the platform has set, with that title as its
/// last title and nothing else changed.
pub proof fn lemma_sweep_stores_titles_only(
    sweep: SweepModel,
    stage: SweepStageModel,
    event: EventModel,
)
    requires
        0 <= stage.position(sweep),
        sweep.step(stage, event).1.writes(),
    ensures
        stage is AwaitTitle,
        event == EventModel::TitleSet(true),
        sweep.step(stage, event).1 == (ActionModel::Store {
            group: stage->group.with_last_title(stage->title),
        }),
{
    lemma_advance_moves_on(sweep, stage.position(sweep));
    lemma_advance_moves_on(sweep, stage.position(sweep) + 1);
    if let SweepStageModel::AwaitRecord { position } = stage {
        if let EventModel::Record(Some(group)) = event {
            assert(sweep.visit(position, group).1 is SetTitle || sweep.visit(position, group)
                == sweep.advance(position + 1));
        }
    }
}

} // verus!
