//! Timer commands and the text in which they are sent over the websocket.
//!
//! Every command is one JSON object whose `command` member names it. Keys and
//! values of custom variables are placed between quotes as they are: the
//! receiver sees whatever characters they hold.

use livesplit_auto_splitting::time;
use vstd::prelude::*;

use crate::decimal;
use crate::websocket::WsThread;

verus! {

/// Nanoseconds in a second.
pub const NANOS_PER_SECOND: i128 = 1_000_000_000;

/// The number of whole seconds in a span of nanoseconds: the quotient rounded
/// toward zero.
pub open spec fn whole_seconds(nanoseconds: int) -> int {
    if nanoseconds < 0 {
        -((-nanoseconds) / (NANOS_PER_SECOND as int))
    } else {
        nanoseconds / (NANOS_PER_SECOND as int)
    }
}

/// A span of nanoseconds is a duration when its whole seconds fit 64 bits.
pub open spec fn is_duration(nanoseconds: int) -> bool {
    i64::MIN <= whole_seconds(nanoseconds) <= i64::MAX
}

/// `time::Duration::nanoseconds_i128` makes a duration of a count of
/// nanoseconds, and `time::Duration::whole_seconds` reads the whole seconds of
/// it. Together they divide by a thousand million and round toward zero; the
/// first panics when the quotient does not fit 64 bits.
#[verifier::external_body]
fn duration_whole_seconds(nanoseconds: i128) -> (seconds: i64)
    requires
        is_duration(nanoseconds as int),
    ensures
        seconds == whole_seconds(nanoseconds as int),
{
    time::Duration::nanoseconds_i128(nanoseconds).whole_seconds()
}

/// A game time: a signed duration with nanosecond precision.
#[derive(Copy, Clone, Debug)]
pub struct GameTime {
    nanoseconds: i128,
}

impl GameTime {
    #[verifier::type_invariant]
    spec fn in_range(self) -> bool {
        is_duration(self.nanoseconds as int)
    }

    /// The length of the duration in nanoseconds.
    pub closed spec fn nanos(self) -> int {
        self.nanoseconds as int
    }

    /// The game time of that many nanoseconds, if its seconds fit 64 bits.
    pub fn from_nanoseconds(nanoseconds: i128) -> (time: Option<GameTime>)
        ensures
            time is Some <==> is_duration(nanoseconds as int),
            time matches Some(t) ==> t.nanos() == nanoseconds,
    {
        let least: i128 = -9_223_372_036_854_775_808_999_999_999;
        let greatest: i128 = 9_223_372_036_854_775_807_999_999_999;
        if least <= nanoseconds && nanoseconds <= greatest {
            Some(GameTime { nanoseconds })
        } else {
            None
        }
    }

    /// The whole seconds of the game time, rounded toward zero.
    pub fn whole_seconds(&self) -> (seconds: i64)
        ensures
            seconds == whole_seconds(self.nanos()),
    {
        proof {
            use_type_invariant(self);
        }
        duration_whole_seconds(self.nanoseconds)
    }
}

/// What the auto splitter asks of the timer.
#[derive(Debug, Clone)]
pub enum WsCommand {
    /// Start a run.
    Start,
    /// Finish the current segment.
    Split,
    /// Reset the run.
    Reset,
    /// Go back to the previous segment.
    UndoSplit,
    /// Skip the current segment.
    SkipSplit,
    /// Set the game time.
    SetGameTime(GameTime),
    /// Stop the automatic flow of game time.
    PauseGameTime,
    /// Resume the automatic flow of game time.
    ResumeGameTime,
    /// Set a custom variable, given by its key and its value.
    SetCustomVariable(String, String),
    /// Ask for the state of the timer.
    GetCurrentState,
}

/// The text of the command that sets the game time to that many seconds.
pub open spec fn set_game_time_text(seconds: int) -> Seq<char> {
    "{\"command\":\"setGameTime\",\"time\":\""@ + decimal::int_text(seconds) + "\"}"@
}

/// The text of the command that sets a custom variable.
pub open spec fn set_custom_variable_text(key: Seq<char>, value: Seq<char>) -> Seq<char> {
    "{\"command\":\"setCustomVariable\",\"key\":\""@ + (key + value_separator() + value) + "\"}"@
}

impl WsCommand {
    /// The text of the command on the wire.
    pub open spec fn wire(self) -> Seq<char> {
        match self {
            WsCommand::Start => "{\"command\":\"start\"}"@,
            WsCommand::Split => "{\"command\":\"split\"}"@,
            WsCommand::Reset => "{\"command\":\"reset\"}"@,
            WsCommand::UndoSplit => "{\"command\":\"undoSplit\"}"@,
            WsCommand::SkipSplit => "{\"command\":\"skipSplit\"}"@,
            WsCommand::SetGameTime(time) => set_game_time_text(whole_seconds(time.nanos())),
            WsCommand::PauseGameTime => "{\"command\":\"pauseGameTime\"}"@,
            WsCommand::ResumeGameTime => "{\"command\":\"resumeGameTime\"}"@,
            WsCommand::SetCustomVariable(key, value) => set_custom_variable_text(key@, value@),
            WsCommand::GetCurrentState => "{\"command\":\"getCurrentState\"}"@,
        }
    }
}

impl WsThread {
    /// The message that sets the game time. Fractions of a second are dropped.
    pub fn set_game_time(time: GameTime) -> (message: String)
        ensures
            message@ == set_game_time_text(whole_seconds(time.nanos())),
    {
        let mut message = "{\"command\":\"setGameTime\",\"time\":\"".to_owned();
        decimal::append_i64(&mut message, time.whole_seconds());
        message.append("\"}");
        message
    }

    /// The message that sets a custom variable. Key and value are not escaped.
    pub fn set_custom_variable(key: &str, value: &str) -> (message: String)
        ensures
            message@ == set_custom_variable_text(key@, value@),
    {
        let mut message = "{\"command\":\"setCustomVariable\",\"key\":\"".to_owned();
        message.append(key);
        message.append("\",\"value\":\"");
        message.append(value);
        message.append("\"}");
        message
    }

    /// The message that is sent for a command.
    pub fn handle(command: &WsCommand) -> (message: String)
        ensures
            message@ == command.wire(),
    {
        match command {
            WsCommand::Start => "{\"command\":\"start\"}".to_owned(),
            WsCommand::Split => "{\"command\":\"split\"}".to_owned(),
            WsCommand::Reset => "{\"command\":\"reset\"}".to_owned(),
            WsCommand::UndoSplit => "{\"command\":\"undoSplit\"}".to_owned(),
            WsCommand::SkipSplit => "{\"command\":\"skipSplit\"}".to_owned(),
            WsCommand::SetGameTime(time) => Self::set_game_time(*time),
            WsCommand::PauseGameTime => "{\"command\":\"pauseGameTime\"}".to_owned(),
            WsCommand::ResumeGameTime => "{\"command\":\"resumeGameTime\"}".to_owned(),
            WsCommand::SetCustomVariable(key, value) => {
                Self::set_custom_variable(key.as_str(), value.as_str())
            },
            WsCommand::GetCurrentState => "{\"command\":\"getCurrentState\"}".to_owned(),
        }
    }
}

/// What stands between the key and the value of a custom variable.
pub open spec fn value_separator() -> Seq<char> {
    "\",\"value\":\""@
}

/// In the text of a custom variable the separator first occurs where the key
/// ends, whatever the value is.
pub open spec fn is_unambiguous_key(key: Seq<char>) -> bool {
    forall|i: int|
        0 <= i < key.len() ==> #[trigger] (key + value_separator()).subrange(
            i,
            i + value_separator().len(),
        ) != value_separator()
}

impl WsCommand {
    /// The key of a custom variable, if there is one, is unambiguous.
    pub open spec fn has_unambiguous_key(self) -> bool {
        self matches WsCommand::SetCustomVariable(key, _) ==> is_unambiguous_key(key@)
    }

    /// The two commands are of one kind.
    pub open spec fn same_kind(self, other: WsCommand) -> bool {
        match self {
            WsCommand::Start => other is Start,
            WsCommand::Split => other is Split,
            WsCommand::Reset => other is Reset,
            WsCommand::UndoSplit => other is UndoSplit,
            WsCommand::SkipSplit => other is SkipSplit,
            WsCommand::SetGameTime(_) => other is SetGameTime,
            WsCommand::PauseGameTime => other is PauseGameTime,
            WsCommand::ResumeGameTime => other is ResumeGameTime,
            WsCommand::SetCustomVariable(_, _) => other is SetCustomVariable,
            WsCommand::GetCurrentState => other is GetCurrentState,
        }
    }

    /// The two commands ask the same of the timer: they are of one kind, and
    /// agree on the whole seconds, or on the key and the value.
    pub open spec fn same_request(self, other: WsCommand) -> bool {
        &&& self.same_kind(other)
        &&& match (self, other) {
            (WsCommand::SetGameTime(a), WsCommand::SetGameTime(b)) => whole_seconds(a.nanos())
                == whole_seconds(b.nanos()),
            (
                WsCommand::SetCustomVariable(k1, v1),
                WsCommand::SetCustomVariable(k2, v2),
            ) => k1@ == k2@ && v1@ == v2@,
            _ => true,
        }
    }
}

/// A key without quotation marks is unambiguous.
pub proof fn law_quote_free_key_is_unambiguous(key: Seq<char>)
    requires
        !key.contains('"'),
    ensures
        is_unambiguous_key(key),
{
    reveal_strlit("\",\"value\":\"");
    let separator = value_separator();
    assert forall|i: int| 0 <= i < key.len() implies #[trigger] (key + separator).subrange(
        i,
        i + separator.len(),
    ) != separator by {
        assert((key + separator).subrange(i, i + separator.len())[0] == key[i]);
        assert(key.contains(key[i]));
    }
}

/// The text of a custom variable determines both its key and its value, among
/// the variables with an unambiguous key.
pub proof fn law_custom_variable_text_injective(
    key1: Seq<char>,
    value1: Seq<char>,
    key2: Seq<char>,
    value2: Seq<char>,
)
    requires
        is_unambiguous_key(key1),
        is_unambiguous_key(key2),
        set_custom_variable_text(key1, value1) == set_custom_variable_text(key2, value2),
    ensures
        key1 == key2,
        value1 == value2,
{
    let separator = value_separator();
    let joined1 = key1 + separator + value1;
    let joined2 = key2 + separator + value2;
    lemma_inside_of_equal_texts(
        "{\"command\":\"setCustomVariable\",\"key\":\""@,
        joined1,
        joined2,
        "\"}"@,
    );
    if key1.len() < key2.len() {
        lemma_separator_inside_key(key1, value1, key2, value2);
    } else if key2.len() < key1.len() {
        lemma_separator_inside_key(key2, value2, key1, value1);
    } else {
        assert(joined1.take(key1.len() as int) =~= key1);
        assert(joined2.take(key2.len() as int) =~= key2);
        assert(joined1.skip((key1.len() + separator.len()) as int) =~= value1);
        assert(joined2.skip((key2.len() + separator.len()) as int) =~= value2);
    }
}

/// If the shorter key ends inside the longer one, the separator occurs there.
proof fn lemma_separator_inside_key(
    short: Seq<char>,
    short_value: Seq<char>,
    long: Seq<char>,
    long_value: Seq<char>,
)
    requires
        short.len() < long.len(),
        short + value_separator() + short_value == long + value_separator() + long_value,
    ensures
        !is_unambiguous_key(long),
{
    let separator = value_separator();
    let i = short.len() as int;
    let joined = short + separator + short_value;
    assert(joined.subrange(i, i + separator.len()) =~= separator);
    assert((long + separator + long_value).subrange(i, i + separator.len()) =~= (long
        + separator).subrange(i, i + separator.len()));
}

/// Two texts between the same prefix and the same suffix are equal if the
/// whole texts are.
proof fn lemma_inside_of_equal_texts(
    prefix: Seq<char>,
    inner1: Seq<char>,
    inner2: Seq<char>,
    suffix: Seq<char>,
)
    requires
        prefix + inner1 + suffix == prefix + inner2 + suffix,
    ensures
        inner1 == inner2,
{
    let text1 = prefix + inner1 + suffix;
    let text2 = prefix + inner2 + suffix;
    assert(text1.len() == text2.len());
    assert(inner1.len() == inner2.len());
    assert(inner1 =~= text1.subrange(prefix.len() as int, (prefix.len() + inner1.len()) as int));
    assert(inner2 =~= text2.subrange(prefix.len() as int, (prefix.len() + inner2.len()) as int));
}

/// Commands of different kinds have different texts, whatever goes with them.
pub proof fn law_kinds_have_different_texts(a: WsCommand, b: WsCommand)
    ensures
        a.wire() == b.wire() ==> a.same_kind(b),
{
    lemma_wire_tag(a);
    lemma_wire_tag(b);
}

/// The text on the wire determines the request: commands with the same text
/// ask the same of the timer, as long as the keys of custom variables are
/// unambiguous.
pub proof fn law_wire_determines_request(a: WsCommand, b: WsCommand)
    requires
        a.has_unambiguous_key(),
        b.has_unambiguous_key(),
        a.wire() == b.wire(),
    ensures
        a.same_request(b),
{
    law_kinds_have_different_texts(a, b);
    match (a, b) {
        (WsCommand::SetGameTime(x), WsCommand::SetGameTime(y)) => {
            let s = whole_seconds(x.nanos());
            let t = whole_seconds(y.nanos());
            lemma_inside_of_equal_texts(
                "{\"command\":\"setGameTime\",\"time\":\""@,
                decimal::int_text(s),
                decimal::int_text(t),
                "\"}"@,
            );
            decimal::law_int_text_injective(s, t);
        },
        (WsCommand::SetCustomVariable(k1, v1), WsCommand::SetCustomVariable(k2, v2)) => {
            law_custom_variable_text_injective(k1@, v1@, k2@, v2@);
        },
        _ => {},
    }
}

/// The characters that tell the kinds of commands apart.
spec fn wire_tag(command: WsCommand) -> Seq<char> {
    match command {
        WsCommand::Start => seq!['s', 't', 'a', 'r'],
        WsCommand::Split => seq!['s', 'p', 'l', 'i'],
        WsCommand::Reset => seq!['r', 'e', 's', 'e'],
        WsCommand::UndoSplit => seq!['u', 'n', 'd', 'o'],
        WsCommand::SkipSplit => seq!['s', 'k', 'i', 'p'],
        WsCommand::SetGameTime(_) => seq!['s', 'e', 't', 'G'],
        WsCommand::PauseGameTime => seq!['p', 'a', 'u', 's'],
        WsCommand::ResumeGameTime => seq!['r', 'e', 's', 'u'],
        WsCommand::SetCustomVariable(_, _) => seq!['s', 'e', 't', 'C'],
        WsCommand::GetCurrentState => seq!['g', 'e', 't', 'C'],
    }
}

/// Every text begins with the same twelve characters, and the next four tell
/// the kind of the command.
proof fn lemma_wire_tag(command: WsCommand)
    ensures
        command.wire().len() >= 16,
        command.wire()[12] == wire_tag(command)[0],
        command.wire()[13] == wire_tag(command)[1],
        command.wire()[14] == wire_tag(command)[2],
        command.wire()[15] == wire_tag(command)[3],
{
    reveal_strlit("{\"command\":\"start\"}");
    reveal_strlit("{\"command\":\"split\"}");
    reveal_strlit("{\"command\":\"reset\"}");
    reveal_strlit("{\"command\":\"undoSplit\"}");
    reveal_strlit("{\"command\":\"skipSplit\"}");
    reveal_strlit("{\"command\":\"setGameTime\",\"time\":\"");
    reveal_strlit("{\"command\":\"pauseGameTime\"}");
    reveal_strlit("{\"command\":\"resumeGameTime\"}");
    reveal_strlit("{\"command\":\"setCustomVariable\",\"key\":\"");
    reveal_strlit("{\"command\":\"getCurrentState\"}");
}

/// The text of a member of a JSON object: a name and a string, between quotes
/// and as they are.
pub open spec fn member_text(name: Seq<char>, value: Seq<char>) -> Seq<char> {
    seq!['"'] + name + seq!['"', ':', '"'] + value + seq!['"']
}

/// The texts of members, with commas between them.
pub open spec fn members_text(members: Seq<(Seq<char>, Seq<char>)>) -> Seq<char>
    decreases members.len(),
{
    if members.len() == 0 {
        seq![]
    } else if members.len() == 1 {
        member_text(members[0].0, members[0].1)
    } else {
        members_text(members.drop_last()) + seq![','] + member_text(
            members.last().0,
            members.last().1,
        )
    }
}

/// The text of a JSON object with the given members.
pub open spec fn object_text(members: Seq<(Seq<char>, Seq<char>)>) -> Seq<char> {
    seq!['{'] + members_text(members) + seq!['}']
}

impl WsCommand {
    /// The name of the command.
    pub open spec fn name(self) -> Seq<char> {
        match self {
            WsCommand::Start => "start"@,
            WsCommand::Split => "split"@,
            WsCommand::Reset => "reset"@,
            WsCommand::UndoSplit => "undoSplit"@,
            WsCommand::SkipSplit => "skipSplit"@,
            WsCommand::SetGameTime(_) => "setGameTime"@,
            WsCommand::PauseGameTime => "pauseGameTime"@,
            WsCommand::ResumeGameTime => "resumeGameTime"@,
            WsCommand::SetCustomVariable(_, _) => "setCustomVariable"@,
            WsCommand::GetCurrentState => "getCurrentState"@,
        }
    }

    /// The command as members of an object: its name, and what goes with it.
    pub open spec fn members(self) -> Seq<(Seq<char>, Seq<char>)> {
        let name = ("command"@, self.name());
        match self {
            WsCommand::SetGameTime(time) => seq![
                name,
                ("time"@, decimal::int_text(whole_seconds(time.nanos()))),
            ],
            WsCommand::SetCustomVariable(key, value) => seq![
                name,
                ("key"@, key@),
                ("value"@, value@),
            ],
            _ => seq![name],
        }
    }
}

/// The text on the wire has the form of a JSON object whose members are the
/// name of the command and what goes with it, unescaped.
pub proof fn law_wire_is_an_object(command: WsCommand)
    ensures
        command.wire() == object_text(command.members()),
{
    reveal_with_fuel(members_text, 3);
    reveal_strlit("command");
    match command {
        WsCommand::Start => {
            reveal_strlit("start");
            reveal_strlit("{\"command\":\"start\"}");
        },
        WsCommand::Split => {
            reveal_strlit("split");
            reveal_strlit("{\"command\":\"split\"}");
        },
        WsCommand::Reset => {
            reveal_strlit("reset");
            reveal_strlit("{\"command\":\"reset\"}");
        },
        WsCommand::UndoSplit => {
            reveal_strlit("undoSplit");
            reveal_strlit("{\"command\":\"undoSplit\"}");
        },
        WsCommand::SkipSplit => {
            reveal_strlit("skipSplit");
            reveal_strlit("{\"command\":\"skipSplit\"}");
        },
        WsCommand::SetGameTime(_) => {
            reveal_strlit("setGameTime");
            reveal_strlit("time");
            reveal_strlit("\"}");
            reveal_strlit("{\"command\":\"setGameTime\",\"time\":\"");
            assert(command.members().drop_last() =~= seq![("command"@, command.name())]);
        },
        WsCommand::PauseGameTime => {
            reveal_strlit("pauseGameTime");
            reveal_strlit("{\"command\":\"pauseGameTime\"}");
        },
        WsCommand::ResumeGameTime => {
            reveal_strlit("resumeGameTime");
            reveal_strlit("{\"command\":\"resumeGameTime\"}");
        },
        WsCommand::SetCustomVariable(key, _) => {
            reveal_strlit("setCustomVariable");
            reveal_strlit("key");
            reveal_strlit("value");
            reveal_strlit("\"}");
            reveal_strlit("\",\"value\":\"");
            reveal_strlit("{\"command\":\"setCustomVariable\",\"key\":\"");
            let first_two = seq![("command"@, command.name()), ("key"@, key@)];
            assert(command.members().drop_last() =~= first_two);
            assert(first_two.drop_last() =~= seq![("command"@, command.name())]);
        },
        WsCommand::GetCurrentState => {
            reveal_strlit("getCurrentState");
            reveal_strlit("{\"command\":\"getCurrentState\"}");
        },
    }
    assert(command.wire() =~= object_text(command.members()));
}

/// Whole seconds are what is left when a fraction of a second, toward zero, is
/// dropped.
pub proof fn law_whole_seconds_drop_the_fraction(nanoseconds: int)
    ensures
        nanoseconds >= 0 ==> whole_seconds(nanoseconds) * 1_000_000_000 <= nanoseconds < (
        whole_seconds(nanoseconds) + 1) * 1_000_000_000,
        nanoseconds <= 0 ==> (whole_seconds(nanoseconds) - 1) * 1_000_000_000 < nanoseconds
            <= whole_seconds(nanoseconds) * 1_000_000_000,
        whole_seconds(-nanoseconds) == -whole_seconds(nanoseconds),
{
}

/// A game time can be had for every number of nanoseconds whose seconds fit 64
/// bits, and for no other.
pub proof fn law_range_of_game_times(nanoseconds: int)
    ensures
        is_duration(nanoseconds) <==> -9_223_372_036_854_775_809 * 1_000_000_000 < nanoseconds
            < 9_223_372_036_854_775_808 * 1_000_000_000,
{
}

/// The text that sets a game time holds a decimal numeral between a fixed
/// beginning and a fixed end. Read back, it is the number of seconds.
pub proof fn law_game_time_text_reads_back(seconds: int)
    ensures
        ({
            let text = set_game_time_text(seconds);
            let start = "{\"command\":\"setGameTime\",\"time\":\""@;
            let end = "\"}"@;
            let numeral = text.subrange(start.len() as int, text.len() - end.len());
            &&& text == start + numeral + end
            &&& decimal::numeral_value(numeral) == seconds
            &&& seconds >= 0 ==> decimal::is_digits(numeral)
            &&& seconds < 0 ==> numeral[0] == '-' && decimal::is_digits(numeral.skip(1))
        }),
{
    let text = set_game_time_text(seconds);
    let start = "{\"command\":\"setGameTime\",\"time\":\""@;
    let end = "\"}"@;
    let numeral = text.subrange(start.len() as int, text.len() - end.len());
    assert(numeral =~= decimal::int_text(seconds));
    decimal::law_int_text_reads_back(seconds);
}

/// The numeral in the command for a game time is the game time in seconds,
/// without its fraction.
pub proof fn law_game_time_is_sent_in_seconds(time: GameTime)
    ensures
        ({
            let text = WsCommand::SetGameTime(time).wire();
            let start = "{\"command\":\"setGameTime\",\"time\":\""@;
            let end = "\"}"@;
            let numeral = text.subrange(start.len() as int, text.len() - end.len());
            let seconds = decimal::numeral_value(numeral);
            &&& text == start + numeral + end
            &&& time.nanos() >= 0 ==> seconds * 1_000_000_000 <= time.nanos() < (seconds + 1)
                * 1_000_000_000
            &&& time.nanos() <= 0 ==> (seconds - 1) * 1_000_000_000 < time.nanos() <= seconds
                * 1_000_000_000
        }),
{
    law_game_time_text_reads_back(whole_seconds(time.nanos()));
    law_whole_seconds_drop_the_fraction(time.nanos());
}

/// The command for a custom variable holds the whole key and the whole value,
/// character by character, and nothing of its own but what stands around them.
pub proof fn law_custom_variable_is_sent_whole(key: String, value: String)
    ensures
        ({
            let text = WsCommand::SetCustomVariable(key, value).wire();
            let start = "{\"command\":\"setCustomVariable\",\"key\":\""@;
            let middle = "\",\"value\":\""@;
            let end = "\"}"@;
            let key_end = start.len() + key@.len();
            let value_start = key_end + middle.len();
            let value_end = value_start + value@.len();
            &&& set_custom_variable_text(key@, value@) == text
            &&& text.len() == value_end + end.len()
            &&& text.subrange(0, start.len() as int) == start
            &&& text.subrange(key_end as int, value_start as int) == middle
            &&& text.subrange(value_end as int, text.len() as int) == end
            &&& forall|i: int|
                0 <= i < key@.len() ==> #[trigger] text[start.len() + i] == key@[i]
            &&& forall|i: int|
                0 <= i < value@.len() ==> #[trigger] text[value_start + i] == value@[i]
        }),
{
    let text = WsCommand::SetCustomVariable(key, value).wire();
    let start = "{\"command\":\"setCustomVariable\",\"key\":\""@;
    let middle = "\",\"value\":\""@;
    let end = "\"}"@;
    let key_end = start.len() + key@.len();
    let value_start = key_end + middle.len();
    let value_end = value_start + value@.len();
    assert(text.subrange(0, start.len() as int) =~= start);
    assert(text.subrange(key_end as int, value_start as int) =~= middle);
    assert(text.subrange(value_end as int, text.len() as int) =~= end);
}

} // verus!
