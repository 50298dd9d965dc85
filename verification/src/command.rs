//! Which command a message is.
//!
//! A message is a command where its first word, without the white space
//! around it and in lower case, is a slash and the name of a command, with or
//! without an `@` and the name of the bot behind it. What follows the first
//! space is the argument of the command.

use vstd::prelude::*;
use crate::group::{group_title, ChatId, ChatKind};
use crate::handler::{echo, Request, RequestModel, ECHO_FALLBACK};
use crate::permission::UserId;
use crate::protocol::Operation;
use crate::text::{after_first_space, to_chars};

verus! {

/// The commands of the bot.
#[derive(Clone, Copy, Debug, PartialEq, Eq, Structural)]
pub enum Command {
    /// Answers with the argument.
    Echo,
    /// Answers with the name and version of the bot.
    Start,
    /// Reads or changes the record of the group.
    Record(Operation),
}

/// The lower-case form of an ASCII capital; any other character itself.
pub open spec fn ascii_lower(c: char) -> char {
    if 'A' <= c && c <= 'Z' {
        ((c as u8) + 32) as u8 as char
    } else {
        c
    }
}

/// `s` with every ASCII capital in lower case.
pub open spec fn lowered(s: Seq<char>) -> Seq<char> {
    Seq::new(s.len(), |i: int| ascii_lower(s[i]))
}

/// Whether `c` is white space.
pub open spec fn is_white_space(c: char) -> bool {
    ('\u{9}' <= c && c <= '\u{d}') || c == ' ' || c == '\u{85}' || c == '\u{a0}' || c == '\u{1680}'
        || ('\u{2000}' <= c && c <= '\u{200a}') || c == '\u{2028}' || c == '\u{2029}' || c
        == '\u{202f}' || c == '\u{205f}' || c == '\u{3000}'
}

/// How many characters of white space `s` begins with.
pub open spec fn leading_white_space(s: Seq<char>) -> nat
    decreases s.len(),
{
    if s.len() > 0 && is_white_space(s.first()) {
        1 + leading_white_space(s.drop_first())
    } else {
        0
    }
}

/// How many characters of white space `s` ends with.
pub open spec fn trailing_white_space(s: Seq<char>) -> nat
    decreases s.len(),
{
    if s.len() > 0 && is_white_space(s.last()) {
        1 + trailing_white_space(s.drop_last())
    } else {
        0
    }
}

/// `s` without the white space at its ends.
pub open spec fn trimmed(s: Seq<char>) -> Seq<char> {
    let rest = s.skip(leading_white_space(s) as int);
    rest.take(rest.len() - trailing_white_space(rest))
}

/// The first word of `text`: what stands before its first space.
pub open spec fn first_word(text: Seq<char>) -> Seq<char> {
    if text.contains(' ') {
        text.take(text.index_of_first(' ').unwrap())
    } else {
        text
    }
}

/// The word by which a message is matched with the commands.
pub open spec fn command_word(text: Seq<char>) -> Seq<char> {
    lowered(trimmed(first_word(text)))
}

/// All commands, in the order in which they are tried.
pub open spec fn commands() -> Seq<Command> {
    seq![
        Command::Echo,
        Command::Start,
        Command::Record(Operation::Status),
        Command::Record(Operation::Enable),
        Command::Record(Operation::Disable),
        Command::Record(Operation::SetTemplate),
        Command::Record(Operation::SetDelimiter),
        Command::Record(Operation::SetTimezone),
        Command::Record(Operation::Push),
        Command::Record(Operation::PushFront),
        Command::Record(Operation::Pop),
        Command::Record(Operation::PopFront),
    ]
}

impl Command {
    /// The name of the command.
    pub open spec fn name(self) -> Seq<char> {
        match self {
            Command::Echo => "echo"@,
            Command::Start => "start"@,
            Command::Record(Operation::Status) => "status"@,
            Command::Record(Operation::Enable) => "enable"@,
            Command::Record(Operation::Disable) => "disable"@,
            Command::Record(Operation::SetTemplate) => "set_template"@,
            Command::Record(Operation::SetDelimiter) => "set_delimiter"@,
            Command::Record(Operation::SetTimezone) => "set_timezone"@,
            Command::Record(Operation::Push) => "push"@,
            Command::Record(Operation::PushFront) => "push_front"@,
            Command::Record(Operation::Pop) => "pop"@,
            Command::Record(Operation::PopFront) => "pop_front"@,
        }
    }

    /// Whether `word` calls this command of the bot named `username`: a
    /// slash and the name, alone or followed by `@` and the name of the bot
    /// in lower case.
    pub open spec fn called_by(self, word: Seq<char>, username: Seq<char>) -> bool {
        word == seq!['/'] + self.name() || word == seq!['/'] + self.name() + seq!['@'] + lowered(
            username,
        )
    }

    /// The name of the command.
    pub fn word(&self) -> (out: &'static str)
        ensures
            out@ == self.name(),
    {
        match self {
            Command::Echo => "echo",
            Command::Start => "start",
            Command::Record(Operation::Status) => "status",
            Command::Record(Operation::Enable) => "enable",
            Command::Record(Operation::Disable) => "disable",
            Command::Record(Operation::SetTemplate) => "set_template",
            Command::Record(Operation::SetDelimiter) => "set_delimiter",
            Command::Record(Operation::SetTimezone) => "set_timezone",
            Command::Record(Operation::Push) => "push",
            Command::Record(Operation::PushFront) => "push_front",
            Command::Record(Operation::Pop) => "pop",
            Command::Record(Operation::PopFront) => "pop_front",
        }
    }
}

/// The first of the commands at or after `from` that `word` calls.
pub open spec fn first_called(word: Seq<char>, username: Seq<char>, from: int) -> Option<Command>
    decreases commands().len() - from,
{
    if from < 0 || from >= commands().len() {
        None
    } else if commands()[from].called_by(word, username) {
        Some(commands()[from])
    } else {
        first_called(word, username, from + 1)
    }
}

/// The command that a message with the text `text` is, for the bot named
/// `username`.
pub open spec fn matched(text: Seq<char>, username: Seq<char>) -> Option<Command> {
    first_called(command_word(text), username, 0)
}

/// All commands, in the order in which they are tried.
pub fn command_list() -> (out: Vec<Command>)
    ensures
        out@ == commands(),
{
    let out: Vec<Command> = vec![
        Command::Echo,
        Command::Start,
        Command::Record(Operation::Status),
        Command::Record(Operation::Enable),
        Command::Record(Operation::Disable),
        Command::Record(Operation::SetTemplate),
        Command::Record(Operation::SetDelimiter),
        Command::Record(Operation::SetTimezone),
        Command::Record(Operation::Push),
        Command::Record(Operation::PushFront),
        Command::Record(Operation::Pop),
        Command::Record(Operation::PopFront),
    ];
    assert(out@ =~= commands());
    out
}

/// The lower-case form of an ASCII capital; any other character itself.
pub fn to_ascii_lower(c: char) -> (out: char)
    ensures
        out == ascii_lower(c),
{
    if 'A' <= c && c <= 'Z' {
        ((c as u8) + 32) as char
    } else {
        c
    }
}

/// Whether `c` is white space.
pub fn white_space(c: char) -> (out: bool)
    ensures
        out == is_white_space(c),
{
    ('\u{9}' <= c && c <= '\u{d}') || c == ' ' || c == '\u{85}' || c == '\u{a0}' || c == '\u{1680}'
        || ('\u{2000}' <= c && c <= '\u{200a}') || c == '\u{2028}' || c == '\u{2029}' || c
        == '\u{202f}' || c == '\u{205f}' || c == '\u{3000}'
}

/// `s` in lower case.
pub fn lower_chars(s: &Vec<char>) -> (out: Vec<char>)
    ensures
        out@ == lowered(s@),
{
    let mut out: Vec<char> = Vec::new();
    let mut i: usize = 0;
    while i < s.len()
        invariant
            i <= s@.len(),
            out@ == lowered(s@.take(i as int)),
        decreases s@.len() - i,
    {
        out.push(to_ascii_lower(s[i]));
        assert(out@ =~= lowered(s@.take(i + 1)));
        i = i + 1;
    }
    assert(s@.take(s@.len() as int) == s@);
    out
}

/// White space at the beginning of `s` is counted one character at a time.
proof fn lemma_leading_white_space(s: Seq<char>, n: int)
    requires
        0 <= n <= s.len(),
        forall|k: int| 0 <= k < n ==> is_white_space(#[trigger] s[k]),
    ensures
        leading_white_space(s) == n + leading_white_space(s.skip(n)),
    decreases n,
{
    if n == 0 {
        assert(s.skip(0) == s);
    } else {
        let rest = s.drop_first();
        assert forall|k: int| 0 <= k < n - 1 implies is_white_space(#[trigger] rest[k]) by {
            assert(rest[k] == s[k + 1]);
        }
        lemma_leading_white_space(rest, n - 1);
        assert(rest.skip(n - 1) == s.skip(n));
        assert(is_white_space(s[0]));
    }
}

/// White space at the end of `s` is counted one character at a time.
proof fn lemma_trailing_white_space(s: Seq<char>, n: int)
    requires
        0 <= n <= s.len(),
        forall|k: int| s.len() - n <= k < s.len() ==> is_white_space(#[trigger] s[k]),
    ensures
        trailing_white_space(s) == n + trailing_white_space(s.take(s.len() - n)),
    decreases n,
{
    if n == 0 {
        assert(s.take(s.len() as int) == s);
    } else {
        let rest = s.drop_last();
        assert forall|k: int| rest.len() - (n - 1) <= k < rest.len() implies is_white_space(
            #[trigger] rest[k],
        ) by {
            assert(rest[k] == s[k]);
        }
        lemma_trailing_white_space(rest, n - 1);
        assert(rest.take(rest.len() - (n - 1)) == s.take(s.len() - n));
        assert(is_white_space(s[s.len() - 1]));
    }
}

/// The word by which the message `text` is matched with the commands.
#[verifier::loop_isolation(false)]
pub fn command_token(text: &str) -> (out: Vec<char>)
    ensures
        out@ == command_word(text@),
{
    let chars: Vec<char> = to_chars(text);
    let n: usize = chars.len();
    let mut end: usize = 0;
    while end < n && chars[end] != ' '
        invariant
            end <= n,
            forall|k: int| 0 <= k < end ==> chars@[k] != ' ',
        decreases n - end,
    {
        end = end + 1;
    }
    let ghost word: Seq<char> = first_word(text@);
    proof {
        if end < n {
            text@.index_of_first_ensures(' ');
            assert(text@.contains(' '));
        } else {
            assert(text@.take(n as int) == text@);
        }
        assert(word == text@.take(end as int));
    }
    let mut start: usize = 0;
    while start < end && white_space(chars[start])
        invariant
            start <= end,
            forall|k: int| 0 <= k < start ==> is_white_space(#[trigger] word[k]),
        decreases end - start,
    {
        start = start + 1;
    }
    let ghost rest: Seq<char> = word.skip(start as int);
    proof {
        lemma_leading_white_space(word, start as int);
        if start < end {
            assert(rest.first() == word[start as int]);
        }
        assert(leading_white_space(rest) == 0);
        assert(leading_white_space(word) == start);
    }
    let mut stop: usize = end;
    while stop > start && white_space(chars[stop - 1])
        invariant
            start <= stop <= end,
            forall|k: int| stop <= k < end ==> is_white_space(#[trigger] word[k]),
        decreases stop,
    {
        stop = stop - 1;
    }
    proof {
        assert forall|k: int| rest.len() - (end - stop) <= k < rest.len() implies is_white_space(
            #[trigger] rest[k],
        ) by {
            assert(rest[k] == word[k + start]);
        }
        lemma_trailing_white_space(rest, end - stop);
        let core = rest.take(rest.len() - (end - stop));
        if stop > start {
            assert(core.last() == word[stop - 1]);
        }
        assert(trailing_white_space(core) == 0);
        assert(trimmed(word) == core);
        assert(core == text@.subrange(start as int, stop as int));
    }
    let mut out: Vec<char> = Vec::new();
    let mut i: usize = start;
    while i < stop
        invariant
            start <= i <= stop,
            out@ == lowered(text@.subrange(start as int, i as int)),
        decreases stop - i,
    {
        out.push(to_ascii_lower(chars[i]));
        assert(out@ =~= lowered(text@.subrange(start as int, i + 1)));
        i = i + 1;
    }
    out
}

/// Whether `word` is `head` followed by `tail`.
fn is_joined(word: &Vec<char>, head: &Vec<char>, tail: &Vec<char>) -> (out: bool)
    ensures
        out == (word@ == head@ + tail@),
{
    if head.len() > word.len() || word.len() - head.len() != tail.len() {
        return false;
    }
    let ghost whole: Seq<char> = head@ + tail@;
    let mut i: usize = 0;
    while i < word.len()
        invariant
            i <= word@.len(),
            whole == head@ + tail@,
            word@.len() == whole.len(),
            forall|k: int| 0 <= k < i ==> word@[k] == whole[k],
        decreases word@.len() - i,
    {
        let expected: char = if i < head.len() {
            head[i]
        } else {
            tail[i - head.len()]
        };
        if word[i] != expected {
            assert(word@[i as int] != whole[i as int]);
            return false;
        }
        i = i + 1;
    }
    assert(word@ =~= whole);
    true
}

/// The command that a message with the text `text` is, for the bot named
/// `username`; none where the first word calls no command.
pub fn match_command(text: &str, username: &str) -> (out: Option<Command>)
    ensures
        out == matched(text@, username@),
{
    let word: Vec<char> = command_token(text);
    let list: Vec<Command> = command_list();
    let mut suffix: Vec<char> = Vec::new();
    suffix.push('@');
    let mut bot: Vec<char> = lower_chars(&to_chars(username));
    suffix.append(&mut bot);
    assert(suffix@ =~= seq!['@'] + lowered(username@));
    let empty: Vec<char> = Vec::new();
    let mut i: usize = 0;
    while i < list.len()
        invariant
            i <= list@.len(),
            list@ == commands(),
            word@ == command_word(text@),
            suffix@ == seq!['@'] + lowered(username@),
            empty@ == Seq::<char>::empty(),
            first_called(word@, username@, i as int) == matched(text@, username@),
        decreases list@.len() - i,
    {
        let command: Command = list[i];
        let mut call: Vec<char> = Vec::new();
        call.push('/');
        let mut name: Vec<char> = to_chars(command.word());
        call.append(&mut name);
        assert(call@ =~= seq!['/'] + command.name());
        proof {
            assert(call@ + empty@ =~= seq!['/'] + command.name());
            assert(call@ + suffix@ =~= seq!['/'] + command.name() + seq!['@'] + lowered(
                username@,
            ));
        }
        if is_joined(&word, &call, &empty) || is_joined(&word, &call, &suffix) {
            return Some(command);
        }
        i = i + 1;
    }
    None
}

/// The names of the commands are what they are written as: none is empty,
/// none holds an `@`, and no two commands bear the same name.
pub proof fn lemma_command_names(a: Command, b: Command)
    ensures
        a.name().len() > 0,
        !a.name().contains('@'),
        a.name() == b.name() ==> a == b,
{
    reveal_strlit("echo");
    reveal_strlit("start");
    reveal_strlit("status");
    reveal_strlit("enable");
    reveal_strlit("disable");
    reveal_strlit("set_template");
    reveal_strlit("set_delimiter");
    reveal_strlit("set_timezone");
    reveal_strlit("push");
    reveal_strlit("push_front");
    reveal_strlit("pop");
    reveal_strlit("pop_front");
    let name = a.name();
    assert forall|i: int| 0 <= i < name.len() implies name[i] != '@' by {}
    if a.name() == b.name() {
        let other = b.name();
        assert(name.len() == other.len());
        assert(name[0] == other[0]);
        assert(name[1] == other[1]);
        assert(name[2] == other[2]);
        assert(name[name.len() - 1] == other[name.len() - 1]);
        assert(name[name.len() - 2] == other[name.len() - 2]);
    }
}

/// A word calls one command at most, so the order in which the commands are
/// tried does not matter.
pub proof fn lemma_command_unambiguous(
    word: Seq<char>,
    username: Seq<char>,
    a: Command,
    b: Command,
)
    requires
        a.called_by(word, username),
        b.called_by(word, username),
    ensures
        a == b,
{
    lemma_command_names(a, b);
    lemma_command_names(b, a);
    let slash = seq!['/'];
    let tail = seq!['@'] + lowered(username);
    let plain_a = slash + a.name();
    let plain_b = slash + b.name();
    assert(slash + a.name() + seq!['@'] + lowered(username) =~= plain_a + tail);
    assert(slash + b.name() + seq!['@'] + lowered(username) =~= plain_b + tail);
    if word == plain_a && word == plain_b {
        assert(a.name() =~= plain_a.skip(1));
        assert(b.name() =~= plain_b.skip(1));
    } else if word == plain_a {
        assert(word == plain_b + tail);
        let at = b.name().len() as int;
        assert(word[at + 1] == '@');
        assert(a.name()[at] == plain_a[at + 1]);
        assert(false);
    } else if word == plain_b {
        assert(word == plain_a + tail);
        let at = a.name().len() as int;
        assert(word[at + 1] == '@');
        assert(b.name()[at] == plain_b[at + 1]);
        assert(false);
    } else {
        assert(word == plain_a + tail);
        assert(word == plain_b + tail);
        assert(plain_a.len() == plain_b.len());
        assert forall|i: int| 0 <= i < a.name().len() implies a.name()[i] == b.name()[i] by {
            assert(a.name()[i] == (plain_a + tail)[i + 1]);
            assert(b.name()[i] == (plain_b + tail)[i + 1]);
        }
        assert(a.name() =~= b.name());
    }
}

/// A message as it came in.
#[derive(Clone, Debug, PartialEq, Eq)]
pub struct Message {
    pub chat_id: ChatId,
    pub chat: ChatKind,
    /// The text of the message, where it has one.
    pub text: Option<String>,
    /// Who sent the message, where the platform tells.
    pub user: Option<UserId>,
}

/// What the platform tells of.
#[derive(Clone, Debug, PartialEq, Eq)]
pub enum Update {
    /// Nothing.
    Empty,
    /// A new message.
    Message(Message),
    /// Anything else.
    Other,
}

/// What to do about an update.
#[derive(Clone, Debug, PartialEq, Eq)]
pub enum Route {
    /// Acknowledge it and do nothing.
    Acknowledge,
    /// Say nothing: the message is no command.
    Unmatched,
    /// Answer with `reply`.
    Echo { reply: String },
    /// Answer with the name and version of the bot.
    Start,
    /// Handle `request`.
    Handle { request: Request },
}

/// What to do about an update, as a plain value.
pub ghost enum RouteModel {
    Acknowledge,
    Unmatched,
    Echo { reply: Seq<char> },
    Start,
    Handle { request: RequestModel },
}

impl View for Route {
    type V = RouteModel;

    open spec fn view(&self) -> RouteModel {
        match *self {
            Route::Acknowledge => RouteModel::Acknowledge,
            Route::Unmatched => RouteModel::Unmatched,
            Route::Echo { reply } => RouteModel::Echo { reply: reply@ },
            Route::Start => RouteModel::Start,
            Route::Handle { request } => RouteModel::Handle { request: request@ },
        }
    }
}

/// What becomes of a message with the text `text`.
pub open spec fn routed(
    chat_id: i64,
    title: Option<Seq<char>>,
    text: Seq<char>,
    user: Option<UserId>,
    username: Seq<char>,
    instant_millis: u64,
) -> RouteModel {
    match matched(text, username) {
        None => RouteModel::Unmatched,
        Some(Command::Echo) => RouteModel::Echo {
            reply: match after_first_space(text) {
                Some(argument) => argument,
                None => ECHO_FALLBACK@,
            },
        },
        Some(Command::Start) => RouteModel::Start,
        Some(Command::Record(operation)) => RouteModel::Handle {
            request: RequestModel { operation, chat_id, title, text, user, instant_millis },
        },
    }
}

/// Finds the command that `message` is, for the bot named `username`, and
/// says what to do about it at `instant_millis`. A message without a text is
/// matched as an empty one.
pub fn run_commands(message: Message, username: &str, instant_millis: u64) -> (out: Route)
    ensures
        out@ == routed(
            message.chat_id.0,
            group_title(message.chat),
            match message.text {
                Some(text) => text@,
                None => Seq::empty(),
            },
            message.user,
            username@,
            instant_millis,
        ),
{
    let text: String = match message.text {
        Some(text) => text,
        None => String::new(),
    };
    match match_command(text.as_str(), username) {
        None => Route::Unmatched,
        Some(Command::Echo) => Route::Echo { reply: echo(text.as_str()) },
        Some(Command::Start) => Route::Start,
        Some(Command::Record(operation)) => Route::Handle {
            request: Request {
                operation,
                chat_id: message.chat_id,
                chat: message.chat,
                text,
                user: message.user,
                instant_millis,
            },
        },
    }
}

/// Says what to do about an update: only a message with a text is looked
/// at for a command, anything else is acknowledged.
pub fn process_update(update: Update, username: &str, instant_millis: u64) -> (out: Route)
    ensures
        match update {
            Update::Message(message) => match message.text {
                Some(text) => out@ == routed(
                    message.chat_id.0,
                    group_title(message.chat),
                    text@,
                    message.user,
                    username@,
                    instant_millis,
                ),
                None => out@ == RouteModel::Acknowledge,
            },
            _ => out@ == RouteModel::Acknowledge,
        },
{
    match update {
        Update::Message(message) => {
            if message.text.is_none() {
                Route::Acknowledge
            } else {
                run_commands(message, username, instant_millis)
            }
        },
        _ => Route::Acknowledge,
    }
}

} // verus!
