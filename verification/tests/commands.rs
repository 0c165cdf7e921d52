use asr_lso_bridge::{GameTime, WebsocketTimer, WsCommand, WsThread};

fn game_time(nanoseconds: i128) -> GameTime {
    GameTime::from_nanoseconds(nanoseconds).unwrap()
}

fn member(message: &str, name: &str) -> String {
    let value: serde_json::Value = serde_json::from_str(message).unwrap();
    value[name].as_str().unwrap().to_owned()
}

#[test]
fn fixed_commands_have_their_texts() {
    let expected = [
        (WsCommand::Start, "{\"command\":\"start\"}"),
        (WsCommand::Split, "{\"command\":\"split\"}"),
        (WsCommand::Reset, "{\"command\":\"reset\"}"),
        (WsCommand::UndoSplit, "{\"command\":\"undoSplit\"}"),
        (WsCommand::SkipSplit, "{\"command\":\"skipSplit\"}"),
        (WsCommand::PauseGameTime, "{\"command\":\"pauseGameTime\"}"),
        (WsCommand::ResumeGameTime, "{\"command\":\"resumeGameTime\"}"),
        (WsCommand::GetCurrentState, "{\"command\":\"getCurrentState\"}"),
    ];
    for (command, text) in &expected {
        assert_eq!(WsThread::handle(command), *text);
    }
}

#[test]
fn commands_are_json_objects() {
    assert_eq!(member(&WsThread::handle(&WsCommand::Start), "command"), "start");
    let message = WsThread::set_game_time(game_time(90_000_000_000));
    assert_eq!(member(&message, "command"), "setGameTime");
    assert_eq!(member(&message, "time"), "90");
    let message = WsThread::set_custom_variable("level", "W1-1");
    assert_eq!(member(&message, "command"), "setCustomVariable");
    assert_eq!(member(&message, "key"), "level");
    assert_eq!(member(&message, "value"), "W1-1");
}

#[test]
fn game_time_is_sent_in_whole_seconds() {
    let cases: [(i128, &str); 9] = [
        (0, "0"),
        (999_999_999, "0"),
        (-999_999_999, "0"),
        (1_000_000_000, "1"),
        (12_345_678_901_234, "12345"),
        (-1_500_000_000, "-1"),
        (-10_000_000_000, "-10"),
        (9_223_372_036_854_775_807_999_999_999, "9223372036854775807"),
        (-9_223_372_036_854_775_808_999_999_999, "-9223372036854775808"),
    ];
    for (nanoseconds, seconds) in cases {
        let expected = format!("{{\"command\":\"setGameTime\",\"time\":\"{seconds}\"}}");
        assert_eq!(WsThread::set_game_time(game_time(nanoseconds)), expected);
        assert_eq!(WsThread::handle(&WsCommand::SetGameTime(game_time(nanoseconds))), expected);
    }
}

#[test]
fn whole_seconds_agree_with_the_duration() {
    for nanoseconds in [-2_000_000_001_i128, -1, 0, 1, 1_999_999_999, 3_600_000_000_000] {
        let duration = livesplit_auto_splitting::time::Duration::nanoseconds_i128(nanoseconds);
        assert_eq!(duration.whole_nanoseconds(), nanoseconds);
        assert_eq!(game_time(nanoseconds).whole_seconds(), duration.whole_seconds());
    }
}

#[test]
fn game_times_out_of_range_are_refused() {
    assert!(GameTime::from_nanoseconds(9_223_372_036_854_775_807_999_999_999).is_some());
    assert!(GameTime::from_nanoseconds(9_223_372_036_854_775_808_000_000_000).is_none());
    assert!(GameTime::from_nanoseconds(-9_223_372_036_854_775_808_999_999_999).is_some());
    assert!(GameTime::from_nanoseconds(-9_223_372_036_854_775_809_000_000_000).is_none());
    assert!(GameTime::from_nanoseconds(i128::MAX).is_none());
    assert!(GameTime::from_nanoseconds(i128::MIN).is_none());
}

#[test]
fn custom_variables_are_not_escaped() {
    assert_eq!(
        WsThread::set_custom_variable("a\"b", "c\\d"),
        "{\"command\":\"setCustomVariable\",\"key\":\"a\"b\",\"value\":\"c\\d\"}"
    );
    assert_eq!(
        WsThread::set_custom_variable("", ""),
        "{\"command\":\"setCustomVariable\",\"key\":\"\",\"value\":\"\"}"
    );
    assert_eq!(
        WsThread::handle(&WsCommand::SetCustomVariable("\u{e9}".to_owned(), "\u{1f3ae}".to_owned())),
        "{\"command\":\"setCustomVariable\",\"key\":\"\u{e9}\",\"value\":\"\u{1f3ae}\"}"
    );
}

#[test]
fn quotes_in_a_key_can_make_variables_look_alike() {
    assert_eq!(
        WsThread::set_custom_variable("a", "b\",\"value\":\"c"),
        WsThread::set_custom_variable("a\",\"value\":\"b", "c")
    );
}

#[test]
fn different_requests_have_different_texts() {
    let commands = [
        WsCommand::Start,
        WsCommand::Split,
        WsCommand::Reset,
        WsCommand::UndoSplit,
        WsCommand::SkipSplit,
        WsCommand::SetGameTime(game_time(1_000_000_000)),
        WsCommand::SetGameTime(game_time(-1_000_000_000)),
        WsCommand::SetGameTime(game_time(10_000_000_000)),
        WsCommand::PauseGameTime,
        WsCommand::ResumeGameTime,
        WsCommand::SetCustomVariable("a".to_owned(), "bc".to_owned()),
        WsCommand::SetCustomVariable("ab".to_owned(), "c".to_owned()),
        WsCommand::SetCustomVariable("a".to_owned(), "b".to_owned()),
        WsCommand::GetCurrentState,
    ];
    for (i, a) in commands.iter().enumerate() {
        for (j, b) in commands.iter().enumerate() {
            assert_eq!(WsThread::handle(a) == WsThread::handle(b), i == j);
        }
    }
}

#[test]
fn timer_calls_become_commands() {
    assert!(matches!(WebsocketTimer::start(), WsCommand::Start));
    assert!(matches!(WebsocketTimer::split(), WsCommand::Split));
    assert!(matches!(WebsocketTimer::skip_split(), WsCommand::SkipSplit));
    assert!(matches!(WebsocketTimer::undo_split(), WsCommand::UndoSplit));
    assert!(matches!(WebsocketTimer::reset(), WsCommand::Reset));
    assert!(matches!(WebsocketTimer::pause_game_time(), WsCommand::PauseGameTime));
    assert!(matches!(WebsocketTimer::resume_game_time(), WsCommand::ResumeGameTime));
    assert_eq!(
        WsThread::handle(&WebsocketTimer::set_game_time(game_time(5_250_000_000))),
        "{\"command\":\"setGameTime\",\"time\":\"5\"}"
    );
    assert_eq!(
        WsThread::handle(&WebsocketTimer::set_variable("key", "value")),
        "{\"command\":\"setCustomVariable\",\"key\":\"key\",\"value\":\"value\"}"
    );
}

#[test]
fn decimal_texts_match_the_standard_ones() {
    for value in [0_i64, 7, 10, 99, 100, 1_234_567_890, -1, -10, i64::MAX, i64::MIN] {
        let mut text = "n=".to_owned();
        asr_lso_bridge::decimal::append_i64(&mut text, value);
        assert_eq!(text, format!("n={value}"));
    }
}
