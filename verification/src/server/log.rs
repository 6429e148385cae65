//! Which log messages a server shows.
use vstd::prelude::*;

verus! {

/// How grave a log message is, the gravest first.
#[derive(Debug, Clone, Copy, PartialEq, Eq, Structural)]
pub enum LogLevel {
    Error,
    Warn,
    Info,
    Debug,
    Trace,
}

impl LogLevel {
    /// How verbose a log is that shows messages down to this level.
    pub open spec fn verbosity(self) -> int {
        match self {
            LogLevel::Error => 1,
            LogLevel::Warn => 2,
            LogLevel::Info => 3,
            LogLevel::Debug => 4,
            LogLevel::Trace => 5,
        }
    }

    fn rank(self) -> (rank: u8)
        ensures
            rank == self.verbosity(),
    {
        match self {
            LogLevel::Error => 1,
            LogLevel::Warn => 2,
            LogLevel::Info => 3,
            LogLevel::Debug => 4,
            LogLevel::Trace => 5,
        }
    }
}

/// The lower case of an ASCII letter; any other character itself.
pub open spec fn ascii_lower(c: char) -> char {
    if 'A' <= c && c <= 'Z' {
        (c as u32 + 32) as char
    } else {
        c
    }
}

/// `text` is `name`, which is in lower case, in any mixture of cases.
pub open spec fn is_name(text: Seq<char>, name: Seq<char>) -> bool {
    text.len() == name.len() && forall|i: int|
        0 <= i < name.len() ==> ascii_lower(#[trigger] text[i]) == name[i]
}

/// `text` is a decimal numeral of what `digit` stands for: it may begin with a
/// plus sign and with zeros.
pub open spec fn is_numeral(text: Seq<char>, digit: char) -> bool {
    let start: int = if text.len() > 0 && text[0] == '+' {
        1
    } else {
        0
    };
    &&& text.len() > start
    &&& text.last() == digit
    &&& forall|i: int| start <= i < text.len() - 1 ==> #[trigger] text[i] == '0'
}

/// The level that a text stands for, by its name or by its number.
pub open spec fn level_of(text: Seq<char>) -> Option<LogLevel> {
    if is_numeral(text, '1') || is_name(text, "error"@) {
        Some(LogLevel::Error)
    } else if is_numeral(text, '2') || is_name(text, "warn"@) {
        Some(LogLevel::Warn)
    } else if is_numeral(text, '3') || is_name(text, "info"@) {
        Some(LogLevel::Info)
    } else if is_numeral(text, '4') || is_name(text, "debug"@) {
        Some(LogLevel::Debug)
    } else if is_numeral(text, '5') || is_name(text, "trace"@) {
        Some(LogLevel::Trace)
    } else {
        None
    }
}

/// `tracing::Level::from_str`: a level by its number, one for errors up to five
/// for traces, or by its name in any mixture of cases. Any other text is an
/// error.
#[verifier::external_body]
fn parse_level(text: &str) -> (level: Option<LogLevel>)
    ensures
        level == level_of(text@),
{
    match <tracing::Level as std::str::FromStr>::from_str(text) {
        Ok(tracing::Level::ERROR) => Some(LogLevel::Error),
        Ok(tracing::Level::WARN) => Some(LogLevel::Warn),
        Ok(tracing::Level::INFO) => Some(LogLevel::Info),
        Ok(tracing::Level::DEBUG) => Some(LogLevel::Debug),
        Ok(tracing::Level::TRACE) => Some(LogLevel::Trace),
        Err(_) => None,
    }
}

/// The level down to which messages are shown, for what was set: messages of
/// the info level and graver ones, if nothing or no level was set.
pub open spec fn maximum(setting: Option<Seq<char>>) -> LogLevel {
    match setting {
        Some(text) => match level_of(text) {
            Some(level) => level,
            None => LogLevel::Info,
        },
        None => LogLevel::Info,
    }
}

/// The level down to which messages are shown, for what was set.
pub fn max_level(setting: Option<String>) -> (level: LogLevel)
    ensures
        level == maximum(
            match setting {
                Some(text) => Some(text@),
                None => None,
            },
        ),
{
    let text = match setting {
        Some(text) => text,
        None => "info".to_owned(),
    };
    proof {
        reveal_strlit("error");
        reveal_strlit("warn");
        reveal_strlit("info");
        if setting is None {
            assert(text@[0] == 'i');
            assert(is_name(text@, "info"@));
        }
    }
    match parse_level(text.as_str()) {
        Some(level) => level,
        None => LogLevel::Info,
    }
}

/// Whether messages come from this project.
pub open spec fn is_own(target: Seq<char>) -> bool {
    ||| "hot_reload"@.is_prefix_of(target)
    ||| "server_bin"@.is_prefix_of(target)
    ||| "server_lib"@.is_prefix_of(target)
}

/// Whether a message is shown: one of this project down to the maximum, any
/// other one only if it is a warning or graver.
pub open spec fn shown(target: Seq<char>, level: LogLevel, max: LogLevel) -> bool {
    &&& level.verbosity() <= max.verbosity()
    &&& is_own(target) || level.verbosity() <= LogLevel::Warn.verbosity()
}

fn begins_with(text: &str, prefix: &str) -> (begins: bool)
    ensures
        begins == prefix@.is_prefix_of(text@),
{
    let length: usize = prefix.unicode_len();
    if text.unicode_len() < length {
        return false;
    }
    for i in 0..length
        invariant
            length == prefix@.len(),
            length <= text@.len(),
            forall|j: int| 0 <= j < i ==> #[trigger] prefix@[j] == text@[j],
    {
        if text.get_char(i) != prefix.get_char(i) {
            assert(prefix@.is_prefix_of(text@) ==> prefix@[i as int] == text@.subrange(
                0,
                length as int,
            )[i as int]);
            return false;
        }
    }
    assert(prefix@ == text@.subrange(0, length as int));
    true
}

/// Whether to show a message of this target and level.
pub fn is_shown(target: &str, level: LogLevel, max: LogLevel) -> (show: bool)
    ensures
        show == shown(target@, level, max),
{
    let own = begins_with(target, "hot_reload") || begins_with(target, "server_bin")
        || begins_with(target, "server_lib");
    let warn_or_max: u8 = if LogLevel::Warn.rank() < max.rank() {
        LogLevel::Warn.rank()
    } else {
        max.rank()
    };
    (own && level.rank() <= max.rank()) || level.rank() <= warn_or_max
}

/// Nothing more verbose than the maximum is shown, wherever it comes from.
pub proof fn nothing_beyond_the_maximum(target: Seq<char>, level: LogLevel, max: LogLevel)
    requires
        level.verbosity() > max.verbosity(),
    ensures
        !shown(target, level, max),
{
}

/// Warnings and errors within the maximum are shown wherever they come from.
pub proof fn warnings_are_shown(target: Seq<char>, level: LogLevel, max: LogLevel)
    requires
        level == LogLevel::Error || level == LogLevel::Warn,
        level.verbosity() <= max.verbosity(),
    ensures
        shown(target, level, max),
{
}

/// A more verbose maximum hides nothing that was shown.
pub proof fn more_verbose_shows_more(
    target: Seq<char>,
    level: LogLevel,
    max: LogLevel,
    wider: LogLevel,
)
    requires
        max.verbosity() <= wider.verbosity(),
        shown(target, level, max),
    ensures
        shown(target, level, wider),
{
}

/// Levels are ordered from errors to traces.
pub proof fn how_levels_are_ordered()
    ensures
        LogLevel::Error.verbosity() < LogLevel::Warn.verbosity(),
        LogLevel::Warn.verbosity() < LogLevel::Info.verbosity(),
        LogLevel::Info.verbosity() < LogLevel::Debug.verbosity(),
        LogLevel::Debug.verbosity() < LogLevel::Trace.verbosity(),
{
}

/// Messages of this project are shown down to the maximum, wherever in it they
/// come from.
pub proof fn own_messages_are_shown(rest: Seq<char>, level: LogLevel, max: LogLevel)
    ensures
        shown("hot_reload"@ + rest, level, max) == (level.verbosity() <= max.verbosity()),
        shown("server_bin"@ + rest, level, max) == (level.verbosity() <= max.verbosity()),
        shown("server_lib"@ + rest, level, max) == (level.verbosity() <= max.verbosity()),
{
    begins_with_its_start("hot_reload"@, rest);
    begins_with_its_start("server_bin"@, rest);
    begins_with_its_start("server_lib"@, rest);
}

proof fn begins_with_its_start(start: Seq<char>, rest: Seq<char>)
    ensures
        start.is_prefix_of(start + rest),
{
    assert((start + rest).subrange(0, start.len() as int) == start);
}

/// Messages from elsewhere are shown only if they are warnings or errors.
pub proof fn other_messages_are_shown_if_grave(target: Seq<char>, level: LogLevel, max: LogLevel)
    requires
        !"hot_reload"@.is_prefix_of(target),
        !"server_bin"@.is_prefix_of(target),
        !"server_lib"@.is_prefix_of(target),
    ensures
        shown(target, level, max) == ((level == LogLevel::Error || level == LogLevel::Warn)
            && level.verbosity() <= max.verbosity()),
{
}

/// The maximum is the level that was set, or the info level if none was or the
/// text stands for none.
pub proof fn how_the_maximum_is_set(text: Seq<char>, level: LogLevel)
    ensures
        maximum(None) == LogLevel::Info,
        level_of(text) is None ==> maximum(Some(text)) == LogLevel::Info,
        level_of(text) == Some(level) ==> maximum(Some(text)) == level,
{
}

} // verus!
