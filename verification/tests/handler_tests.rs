use group_title::group::{ChatId, ChatKind, Group};
use group_title::handler::{echo, warn_group_only, Request, Stage};
use group_title::permission::{MemberStatus, UserId};
use group_title::protocol::{Action, Event, Failure, Operation, Reply};
use group_title::template::TitleError;

const MARCH_5_2024_10H: u64 = 1_709_632_800_000;
const CHAT: ChatId = ChatId(-1001234567890);

/// What the store and the platform answer in one run.
struct Backend {
    record: Option<Group>,
    status: Option<MemberStatus>,
    platform_sets_title: bool,
    store_takes_records: bool,
    titles: Vec<String>,
    writes: Vec<Group>,
    queries: u32,
}

fn backend(record: Option<Group>, status: Option<MemberStatus>) -> Backend {
    Backend {
        record,
        status,
        platform_sets_title: true,
        store_takes_records: true,
        titles: Vec::new(),
        writes: Vec::new(),
        queries: 0,
    }
}

/// Runs a request to its end and hands back the last action.
fn run(request: &Request, backend: &mut Backend) -> Action {
    let mut stage = Stage::Begin;
    let mut event = Event::Start;
    for _ in 0..16 {
        let (next, action) = request.step(stage, event);
        stage = next;
        event = match action {
            Action::Load { chat_id } => {
                assert_eq!(chat_id, request.chat_id);
                Event::Record(backend.record.clone())
            }
            Action::Store { group } => {
                backend.writes.push(group.clone());
                if backend.store_takes_records {
                    backend.record = Some(group);
                }
                Event::Stored(backend.store_takes_records)
            }
            Action::QueryMember { chat_id, user } => {
                assert_eq!(chat_id, request.chat_id);
                assert_eq!(Some(user), request.user);
                backend.queries += 1;
                Event::Member(backend.status)
            }
            Action::SetTitle { chat_id, title } => {
                assert_eq!(chat_id, request.chat_id);
                backend.titles.push(title);
                Event::TitleSet(backend.platform_sets_title)
            }
            last => {
                assert_eq!(stage, Stage::Done);
                return last;
            }
        };
    }
    panic!("the request did not come to an end");
}

fn request(operation: Operation, text: &str) -> Request {
    Request {
        operation,
        chat_id: CHAT,
        chat: ChatKind::Supergroup { title: "Team Chat".to_string() },
        text: text.to_string(),
        user: Some(UserId(7)),
        instant_millis: MARCH_5_2024_10H,
    }
}

fn stored(enable: bool, segments: &[&str], delimiter: &str) -> Group {
    Group {
        enable,
        id: CHAT,
        title_segment: segments.iter().map(|s| s.to_string()).collect(),
        delimiter: delimiter.to_string(),
        last_title: "before".to_string(),
        timezone: "UTC".to_string(),
        require_admin: true,
    }
}

const EVERY_OPERATION: [(Operation, &str); 10] = [
    (Operation::Status, "/status"),
    (Operation::Enable, "/enable"),
    (Operation::Disable, "/disable"),
    (Operation::SetTemplate, "/set_template {Y}"),
    (Operation::SetDelimiter, "/set_delimiter ·"),
    (Operation::SetTimezone, "/set_timezone Asia/Tokyo"),
    (Operation::Push, "/push {m}"),
    (Operation::PushFront, "/push_front {d}"),
    (Operation::Pop, "/pop"),
    (Operation::PopFront, "/pop_front"),
];

#[test]
fn echo_answers_with_the_argument() {
    assert_eq!(echo("/echo hello world"), "hello world");
    assert_eq!(echo("/echo "), "");
}

#[test]
fn echo_answers_without_argument() {
    assert_eq!(echo("/echo"), "wut?");
}

#[test]
fn warn_group_only_ends_the_request() {
    assert_eq!(warn_group_only(), (Stage::Done, Action::Reply(Reply::GroupOnly)));
}

#[test]
fn private_chats_are_turned_away_by_every_command() {
    for (operation, text) in EVERY_OPERATION {
        let mut req = request(operation, text);
        req.chat = ChatKind::Private;
        let mut world = backend(None, Some(MemberStatus::Creator));
        assert_eq!(run(&req, &mut world), Action::Reply(Reply::GroupOnly));
        assert!(world.writes.is_empty());
        assert_eq!(world.queries, 0);
    }
}

#[test]
fn commands_without_their_text_are_turned_away() {
    for (operation, text) in [
        (Operation::SetTemplate, "/set_template"),
        (Operation::SetDelimiter, "/set_delimiter"),
        (Operation::SetTimezone, "/set_timezone"),
        (Operation::Push, "/push"),
        (Operation::PushFront, "/push_front"),
    ] {
        let mut world = backend(Some(stored(true, &["a"], "|")), Some(MemberStatus::Creator));
        assert_eq!(
            run(&request(operation, text), &mut world),
            Action::Reply(Reply::MissingArgument(operation))
        );
        assert!(world.writes.is_empty());
        assert!(world.titles.is_empty());
    }
}

#[test]
fn empty_delimiter_and_empty_segment_are_turned_away() {
    for (operation, text) in [
        (Operation::SetDelimiter, "/set_delimiter "),
        (Operation::Push, "/push "),
        (Operation::PushFront, "/push_front "),
    ] {
        let mut world = backend(Some(stored(true, &["a"], "|")), Some(MemberStatus::Creator));
        assert_eq!(
            run(&request(operation, text), &mut world),
            Action::Reply(Reply::MissingArgument(operation))
        );
        assert!(world.writes.is_empty());
    }
}

#[test]
fn unknown_zone_is_turned_away_before_the_store_is_read() {
    let req = request(Operation::SetTimezone, "/set_timezone Mars/Olympus");
    assert_eq!(
        req.step(Stage::Begin, Event::Start),
        (Stage::Done, Action::Reply(Reply::InvalidTimezone))
    );
    let empty = request(Operation::SetTimezone, "/set_timezone ");
    assert_eq!(
        empty.step(Stage::Begin, Event::Start),
        (Stage::Done, Action::Reply(Reply::InvalidTimezone))
    );
}

#[test]
fn first_step_asks_for_the_record() {
    let req = request(Operation::Enable, "/enable");
    assert_eq!(
        req.step(Stage::Begin, Event::Start),
        (Stage::AwaitRecord, Action::Load { chat_id: CHAT })
    );
}

#[test]
fn unknown_chat_gets_a_default_record_that_is_stored() {
    let req = request(Operation::Status, "/status");
    let fresh = Group::new(&CHAT, &req.chat);
    assert_eq!(
        req.step(Stage::AwaitRecord, Event::Record(None)),
        (Stage::AwaitCreation { group: fresh.clone() }, Action::Store { group: fresh.clone() })
    );
    let mut world = backend(None, Some(MemberStatus::Administrator));
    assert_eq!(
        run(&req, &mut world),
        Action::Reply(Reply::Status { title: "Team Chat".to_string(), group: fresh.clone() })
    );
    assert_eq!(world.writes, vec![fresh]);
}

#[test]
fn default_record_is_used_though_the_store_refuses_it() {
    let req = request(Operation::Status, "/status");
    let fresh = Group::new(&CHAT, &req.chat);
    let mut world = backend(None, Some(MemberStatus::Administrator));
    world.store_takes_records = false;
    assert_eq!(
        run(&req, &mut world),
        Action::Reply(Reply::Status { title: "Team Chat".to_string(), group: fresh })
    );
}

#[test]
fn member_changes_nothing_with_any_command() {
    for status in [MemberStatus::Member, MemberStatus::Restricted, MemberStatus::Left,
        MemberStatus::Kicked, MemberStatus::Unknown]
    {
        for (operation, text) in EVERY_OPERATION {
            let before = stored(true, &["a", "b"], "|");
            let mut world = backend(Some(before.clone()), Some(status));
            assert_eq!(run(&request(operation, text), &mut world), Action::Reply(Reply::Empty));
            assert_eq!(world.record, Some(before));
            assert!(world.writes.is_empty());
            assert!(world.titles.is_empty());
            assert_eq!(world.queries, 1);
        }
    }
}

#[test]
fn guarded_record_fails_requests_without_a_user() {
    for (operation, text) in EVERY_OPERATION {
        let before = stored(true, &["a", "b"], "|");
        let mut world = backend(Some(before.clone()), Some(MemberStatus::Creator));
        let mut req = request(operation, text);
        req.user = None;
        assert_eq!(run(&req, &mut world), Action::Fail(Failure::MissingUser));
        assert_eq!(world.record, Some(before));
        assert_eq!(world.queries, 0);
    }
}

#[test]
fn failed_membership_query_fails_the_request() {
    let before = stored(true, &["a", "b"], "|");
    let mut world = backend(Some(before.clone()), None);
    assert_eq!(
        run(&request(Operation::Pop, "/pop"), &mut world),
        Action::Fail(Failure::MembershipUnavailable)
    );
    assert_eq!(world.record, Some(before));
}

#[test]
fn open_record_is_changed_without_asking_the_platform() {
    let mut before = stored(false, &["a", "b"], "|");
    before.require_admin = false;
    let mut world = backend(Some(before), Some(MemberStatus::Member));
    let mut req = request(Operation::Pop, "/pop");
    req.user = None;
    assert_eq!(
        run(&req, &mut world),
        Action::Reply(Reply::TemplateChanged { template: "a".to_string() })
    );
    assert_eq!(world.queries, 0);
    assert_eq!(world.record.unwrap().title_segment, vec!["a"]);
}

#[test]
fn status_tells_the_settings_and_stores_nothing() {
    let before = stored(true, &["a", "{Y}"], "·");
    let mut world = backend(Some(before.clone()), Some(MemberStatus::Administrator));
    assert_eq!(
        run(&request(Operation::Status, "/status"), &mut world),
        Action::Reply(Reply::Status { title: "Team Chat".to_string(), group: before })
    );
    assert!(world.writes.is_empty());
    assert!(world.titles.is_empty());
}

#[test]
fn enable_applies_the_title_and_stores_the_group_switched_on() {
    let mut world = backend(
        Some(stored(false, &["Team Chat", "{Y}-{m}-{d}"], "|")),
        Some(MemberStatus::Creator),
    );
    assert_eq!(
        run(&request(Operation::Enable, "/enable"), &mut world),
        Action::Reply(Reply::Enabled { template: "Team Chat | {Y}-{m}-{d}".to_string() })
    );
    assert_eq!(world.titles, vec!["Team Chat | 2024-03-05"]);
    let mut expected = stored(true, &["Team Chat", "{Y}-{m}-{d}"], "|");
    expected.last_title = "Team Chat | 2024-03-05".to_string();
    assert_eq!(world.writes, vec![expected.clone()]);
    assert_eq!(world.record, Some(expected));
}

#[test]
fn enable_is_taken_back_where_the_platform_refuses_the_title() {
    let mut world = backend(Some(stored(false, &["a"], "|")), Some(MemberStatus::Creator));
    world.platform_sets_title = false;
    assert_eq!(run(&request(Operation::Enable, "/enable"), &mut world), Action::Reply(Reply::ApplyFailed));
    assert_eq!(world.titles, vec!["a"]);
    assert_eq!(world.record, Some(stored(false, &["a"], "|")));
}

#[test]
fn enable_is_taken_back_where_the_template_does_not_render() {
    let mut world = backend(Some(stored(false, &["{nope}"], "|")), Some(MemberStatus::Creator));
    assert_eq!(run(&request(Operation::Enable, "/enable"), &mut world), Action::Reply(Reply::ApplyFailed));
    assert!(world.titles.is_empty());
    assert_eq!(world.writes, vec![stored(false, &["{nope}"], "|")]);
}

#[test]
fn title_of_wrong_length_is_never_sent() {
    let long = "x".repeat(256);
    for segments in [vec![""], vec![long.as_str()]] {
        let mut world = backend(Some(stored(false, &segments, "|")), Some(MemberStatus::Creator));
        assert_eq!(
            run(&request(Operation::Enable, "/enable"), &mut world),
            Action::Reply(Reply::ApplyFailed)
        );
        assert!(world.titles.is_empty());
        assert_eq!(world.record, Some(stored(false, &segments, "|")));
    }
}

#[test]
fn disable_switches_off_without_rendering() {
    let mut world = backend(Some(stored(true, &["{nope}"], "|")), Some(MemberStatus::Creator));
    assert_eq!(run(&request(Operation::Disable, "/disable"), &mut world), Action::Reply(Reply::Disabled));
    assert!(world.titles.is_empty());
    assert_eq!(world.record, Some(stored(false, &["{nope}"], "|")));
}

#[test]
fn set_template_replaces_all_segments() {
    let mut world = backend(Some(stored(false, &["a", "b", "c"], "|")), Some(MemberStatus::Creator));
    assert_eq!(
        run(&request(Operation::SetTemplate, "/set_template Day {j} of {Y}"), &mut world),
        Action::Reply(Reply::TemplateChanged { template: "Day {j} of {Y}".to_string() })
    );
    assert!(world.titles.is_empty());
    assert_eq!(world.record, Some(stored(false, &["Day {j} of {Y}"], "|")));
}

#[test]
fn set_delimiter_replaces_the_delimiter_and_applies_the_title() {
    let mut world = backend(Some(stored(true, &["a", "b"], "|")), Some(MemberStatus::Creator));
    assert_eq!(
        run(&request(Operation::SetDelimiter, "/set_delimiter ·"), &mut world),
        Action::Reply(Reply::TemplateChanged { template: "a · b".to_string() })
    );
    assert_eq!(world.titles, vec!["a · b"]);
    let mut expected = stored(true, &["a", "b"], "·");
    expected.last_title = "a · b".to_string();
    assert_eq!(world.writes, vec![expected]);
}

#[test]
fn set_timezone_replaces_the_zone_and_applies_the_title() {
    let mut world = backend(Some(stored(true, &["{H}h {Z}"], "|")), Some(MemberStatus::Creator));
    assert_eq!(
        run(&request(Operation::SetTimezone, "/set_timezone Asia/Tokyo"), &mut world),
        Action::Reply(Reply::TimezoneChanged { timezone: "Asia/Tokyo".to_string() })
    );
    assert_eq!(world.titles, vec!["19h JST"]);
    let record = world.record.unwrap();
    assert_eq!(record.timezone, "Asia/Tokyo");
    assert_eq!(record.last_title, "19h JST");
}

#[test]
fn set_timezone_on_a_group_that_is_off_sends_nothing() {
    let mut world = backend(Some(stored(false, &["{H}h"], "|")), Some(MemberStatus::Creator));
    assert_eq!(
        run(&request(Operation::SetTimezone, "/set_timezone Europe/Berlin"), &mut world),
        Action::Reply(Reply::TimezoneChanged { timezone: "Europe/Berlin".to_string() })
    );
    assert!(world.titles.is_empty());
    assert_eq!(world.record.unwrap().timezone, "Europe/Berlin");
}

#[test]
fn push_appends_and_applies_where_the_group_is_on() {
    let mut world = backend(Some(stored(true, &["Team Chat"], "|")), Some(MemberStatus::Administrator));
    assert_eq!(
        run(&request(Operation::Push, "/push {Y}-{m}-{d}"), &mut world),
        Action::Reply(Reply::TemplateChanged { template: "Team Chat | {Y}-{m}-{d}".to_string() })
    );
    assert_eq!(world.titles, vec!["Team Chat | 2024-03-05"]);
    let record = world.record.unwrap();
    assert_eq!(record.title_segment, vec!["Team Chat", "{Y}-{m}-{d}"]);
    assert_eq!(record.last_title, "Team Chat | 2024-03-05");
    assert!(record.enable);
}

#[test]
fn push_on_a_group_that_is_off_tells_the_template_and_sends_nothing() {
    let mut world = backend(Some(stored(false, &["Team Chat"], "|")), Some(MemberStatus::Administrator));
    assert_eq!(
        run(&request(Operation::Push, "/push {nope}"), &mut world),
        Action::Reply(Reply::TemplateChanged { template: "Team Chat | {nope}".to_string() })
    );
    assert!(world.titles.is_empty());
    assert_eq!(world.record, Some(stored(false, &["Team Chat", "{nope}"], "|")));
}

#[test]
fn push_that_breaks_the_template_switches_the_group_off() {
    let mut world = backend(Some(stored(true, &["Team Chat"], "|")), Some(MemberStatus::Administrator));
    assert_eq!(
        run(&request(Operation::Push, "/push {nope}"), &mut world),
        Action::Reply(Reply::ApplyFailed)
    );
    assert!(world.titles.is_empty());
    assert_eq!(world.record, Some(stored(false, &["Team Chat", "{nope}"], "|")));
}

#[test]
fn push_front_prepends() {
    let mut world = backend(Some(stored(true, &["b"], "|")), Some(MemberStatus::Administrator));
    assert_eq!(
        run(&request(Operation::PushFront, "/push_front a"), &mut world),
        Action::Reply(Reply::TemplateChanged { template: "a | b".to_string() })
    );
    assert_eq!(world.titles, vec!["a | b"]);
}

#[test]
fn pop_and_pop_front_remove_one_segment() {
    let mut world = backend(Some(stored(true, &["a", "b", "c"], "|")), Some(MemberStatus::Administrator));
    assert_eq!(
        run(&request(Operation::Pop, "/pop"), &mut world),
        Action::Reply(Reply::TemplateChanged { template: "a | b".to_string() })
    );
    assert_eq!(
        run(&request(Operation::PopFront, "/pop_front"), &mut world),
        Action::Reply(Reply::TemplateChanged { template: "b".to_string() })
    );
    assert_eq!(world.titles, vec!["a | b", "b"]);
}

#[test]
fn pop_keeps_the_last_segment() {
    let mut world = backend(Some(stored(false, &["only"], "|")), Some(MemberStatus::Administrator));
    for (operation, text) in [(Operation::Pop, "/pop"), (Operation::PopFront, "/pop_front")] {
        assert_eq!(
            run(&request(operation, text), &mut world),
            Action::Reply(Reply::TemplateChanged { template: "only".to_string() })
        );
        assert_eq!(world.record, Some(stored(false, &["only"], "|")));
    }
}

#[test]
fn refused_write_fails_the_request() {
    let mut world = backend(Some(stored(false, &["a", "b"], "|")), Some(MemberStatus::Creator));
    world.store_takes_records = false;
    assert_eq!(
        run(&request(Operation::Pop, "/pop"), &mut world),
        Action::Fail(Failure::StoreUnavailable)
    );
    assert_eq!(world.record, Some(stored(false, &["a", "b"], "|")));
}

#[test]
fn group_is_never_stored_switched_on_after_a_failed_apply() {
    for (operation, text) in EVERY_OPERATION {
        let mut world = backend(Some(stored(true, &["a", "b"], "|")), Some(MemberStatus::Creator));
        world.platform_sets_title = false;
        run(&request(operation, text), &mut world);
        if !world.titles.is_empty() {
            assert!(!world.record.unwrap().enable);
        }
    }
}

#[test]
fn events_out_of_turn_end_the_request() {
    let req = request(Operation::Enable, "/enable");
    let out_of_turn = (Stage::Done, Action::Fail(Failure::OutOfTurn));
    assert_eq!(req.step(Stage::Begin, Event::Stored(true)), out_of_turn);
    assert_eq!(req.step(Stage::AwaitRecord, Event::Start), out_of_turn);
    assert_eq!(req.step(Stage::AwaitRecord, Event::TitleSet(true)), out_of_turn);
    assert_eq!(
        req.step(Stage::AwaitMember { group: stored(true, &["a"], "|") }, Event::Stored(true)),
        out_of_turn
    );
    assert_eq!(
        req.step(
            Stage::AwaitTitle { group: stored(true, &["a"], "|"), title: "a".to_string() },
            Event::Record(None)
        ),
        out_of_turn
    );
    assert_eq!(req.step(Stage::AwaitStore { reply: Reply::Disabled }, Event::Start), out_of_turn);
    assert_eq!(req.step(Stage::Done, Event::Start), out_of_turn);
}

#[test]
fn argument_is_what_follows_the_command() {
    assert_eq!(request(Operation::Push, "/push a b").argument(), "a b");
    assert_eq!(request(Operation::Push, "/push").argument(), "");
    assert!(request(Operation::Push, "/push").lacks_argument());
    assert!(request(Operation::Push, "/push ").lacks_argument());
    assert!(!request(Operation::Push, "/push x").lacks_argument());
    assert!(!request(Operation::SetTemplate, "/set_template ").lacks_argument());
    assert!(request(Operation::SetTemplate, "/set_template").lacks_argument());
    assert!(!request(Operation::Pop, "/pop").lacks_argument());
}

#[test]
fn title_that_rendered_is_asked_to_be_set() {
    let req = request(Operation::Enable, "/enable");
    let group = stored(true, &["a"], "|");
    assert_eq!(
        req.attempt_given(group.clone(), Ok("a title".to_string())),
        (
            Stage::AwaitTitle { group, title: "a title".to_string() },
            Action::SetTitle { chat_id: CHAT, title: "a title".to_string() }
        )
    );
}

#[test]
fn group_without_a_title_to_send_is_stored_switched_off() {
    let req = request(Operation::Enable, "/enable");
    for error in [TitleError::InvalidTemplate, TitleError::InvalidLength, TitleError::InstantOutOfRange] {
        assert_eq!(
            req.attempt_given(stored(true, &["a"], "|"), Err(error)),
            (
                Stage::AwaitStore { reply: Reply::ApplyFailed },
                Action::Store { group: stored(false, &["a"], "|") }
            )
        );
    }
}

#[test]
fn zone_is_asked_of_set_timezone_only() {
    let load = (Stage::AwaitRecord, Action::Load { chat_id: CHAT });
    assert_eq!(request(Operation::Push, "/push x").begin_given(false), load);
    assert_eq!(request(Operation::SetTimezone, "/set_timezone x").begin_given(true), load);
    assert_eq!(
        request(Operation::SetTimezone, "/set_timezone x").begin_given(false),
        (Stage::Done, Action::Reply(Reply::InvalidTimezone))
    );
    assert_eq!(
        request(Operation::SetTimezone, "/set_timezone").begin_given(true),
        (Stage::Done, Action::Reply(Reply::MissingArgument(Operation::SetTimezone)))
    );
}
