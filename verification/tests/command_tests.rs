use group_title::command::{
    command_list, command_token, lower_chars, match_command, process_update, run_commands,
    to_ascii_lower, white_space, Command, Message, Route, Update,
};
use group_title::group::{ChatId, ChatKind};
use group_title::handler::Request;
use group_title::permission::UserId;
use group_title::protocol::Operation;

fn token(text: &str) -> String {
    command_token(text).into_iter().collect()
}

fn message(text: Option<&str>) -> Message {
    Message {
        chat_id: ChatId(-5),
        chat: ChatKind::Group { title: "g".to_string() },
        text: text.map(|t| t.to_string()),
        user: Some(UserId(9)),
    }
}

#[test]
fn ascii_capitals_are_lowered() {
    assert_eq!(to_ascii_lower('A'), 'a');
    assert_eq!(to_ascii_lower('Z'), 'z');
    assert_eq!(to_ascii_lower('q'), 'q');
    assert_eq!(to_ascii_lower('_'), '_');
    assert_eq!(to_ascii_lower('@'), '@');
    assert_eq!(to_ascii_lower('['), '[');
    assert_eq!(to_ascii_lower('É'), 'É');
}

#[test]
fn lowering_agrees_with_std() {
    for c in ['\0', ' ', '/', '0', '@', 'A', 'M', 'Z', '[', '`', 'a', 'z', '{', 'É', 'Я', '题'] {
        assert_eq!(to_ascii_lower(c), c.to_ascii_lowercase());
    }
    let text: Vec<char> = "/Set_TimeZone@TitleBOT".chars().collect();
    let lowered: String = lower_chars(&text).into_iter().collect();
    assert_eq!(lowered, "/set_timezone@titlebot");
}

#[test]
fn white_space_agrees_with_std() {
    for code in 0..0x3100u32 {
        if let Some(c) = char::from_u32(code) {
            assert_eq!(white_space(c), c.is_whitespace(), "for U+{:04X}", code);
        }
    }
}

#[test]
fn command_token_is_the_first_word_trimmed_and_lowered() {
    assert_eq!(token("/Push {Y}"), "/push");
    assert_eq!(token("/push"), "/push");
    assert_eq!(token("\t/PUSH\n rest"), "/push");
    assert_eq!(token("/push\u{3000} x"), "/push");
    assert_eq!(token(""), "");
    assert_eq!(token(" /push"), "");
    assert_eq!(token("\n\t"), "");
    assert_eq!(token("/a\tb c"), "/a\tb");
}

#[test]
fn command_token_agrees_with_std() {
    for text in ["/Start now", "  x", "\t/Echo\t hi", "/ÉCHO x", "plain", "", " ", "\u{a0}/pop\u{a0}"] {
        let expected = text.split(' ').collect::<Vec<&str>>()[0].trim().to_ascii_lowercase();
        assert_eq!(token(text), expected, "for {:?}", text);
    }
}

#[test]
fn every_command_is_matched_by_its_name() {
    for command in command_list() {
        let plain = format!("/{}", command.word());
        let addressed = format!("/{}@TitleBot some text", command.word());
        assert_eq!(match_command(&plain, "TitleBot"), Some(command));
        assert_eq!(match_command(&addressed, "TitleBot"), Some(command));
    }
    assert_eq!(command_list().len(), 12);
}

#[test]
fn commands_are_matched_whatever_their_case() {
    assert_eq!(match_command("/PUSH x", "bot"), Some(Command::Record(Operation::Push)));
    assert_eq!(match_command("/Pop_Front@BOT", "Bot"), Some(Command::Record(Operation::PopFront)));
    assert_eq!(match_command("/start@titlebot", "TitleBot"), Some(Command::Start));
}

#[test]
fn other_words_match_no_command() {
    assert_eq!(match_command("", "bot"), None);
    assert_eq!(match_command("push x", "bot"), None);
    assert_eq!(match_command("/pushx", "bot"), None);
    assert_eq!(match_command("/pus", "bot"), None);
    assert_eq!(match_command("/push@other", "bot"), None);
    assert_eq!(match_command("/push@", "bot"), None);
    assert_eq!(match_command("/push@bot@bot", "bot"), None);
    assert_eq!(match_command(" /push", "bot"), None);
    assert_eq!(match_command("//push", "bot"), None);
}

#[test]
fn bot_without_a_name_is_called_with_a_bare_at() {
    assert_eq!(match_command("/push@", ""), Some(Command::Record(Operation::Push)));
}

#[test]
fn message_with_a_record_command_becomes_a_request() {
    assert_eq!(
        run_commands(message(Some("/set_timezone Asia/Tokyo")), "bot", 1234),
        Route::Handle {
            request: Request {
                operation: Operation::SetTimezone,
                chat_id: ChatId(-5),
                chat: ChatKind::Group { title: "g".to_string() },
                text: "/set_timezone Asia/Tokyo".to_string(),
                user: Some(UserId(9)),
                instant_millis: 1234,
            }
        }
    );
}

#[test]
fn echo_and_start_are_answered_at_once() {
    assert_eq!(
        run_commands(message(Some("/echo hi there")), "bot", 0),
        Route::Echo { reply: "hi there".to_string() }
    );
    assert_eq!(
        run_commands(message(Some("/echo")), "bot", 0),
        Route::Echo { reply: "wut?".to_string() }
    );
    assert_eq!(run_commands(message(Some("/start")), "bot", 0), Route::Start);
}

#[test]
fn message_that_is_no_command_is_unmatched() {
    assert_eq!(run_commands(message(Some("hello")), "bot", 0), Route::Unmatched);
    assert_eq!(run_commands(message(None), "bot", 0), Route::Unmatched);
}

#[test]
fn updates_without_a_text_message_are_acknowledged() {
    assert_eq!(process_update(Update::Empty, "bot", 0), Route::Acknowledge);
    assert_eq!(process_update(Update::Other, "bot", 0), Route::Acknowledge);
    assert_eq!(process_update(Update::Message(message(None)), "bot", 0), Route::Acknowledge);
}

#[test]
fn updates_with_a_text_message_are_matched() {
    assert_eq!(process_update(Update::Message(message(Some("/start"))), "bot", 0), Route::Start);
    assert_eq!(
        process_update(Update::Message(message(Some("nothing"))), "bot", 0),
        Route::Unmatched
    );
}
