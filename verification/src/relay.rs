//! Relaying what the redirector process writes to its standard error, and how it ended.

use vstd::prelude::*;

use std::str::FromStr;

verus! {

/// The severity of a log message.
#[derive(Clone, Copy, Debug, PartialEq, Eq, Structural)]
pub enum LogLevel {
    Error,
    Warn,
    Info,
    Debug,
    Trace,
}

/// Where a message goes.
#[derive(Debug, PartialEq, Eq)]
pub enum Output {
    /// To this process's own standard error, bypassing the log.
    Print { message: String },
    /// To the log.
    Log { level: LogLevel, message: String },
}

/// What `Output` holds, with its text as a sequence of characters.
pub enum OutputView {
    Print { message: Seq<char> },
    Log { level: LogLevel, message: Seq<char> },
}

impl View for Output {
    type V = OutputView;

    open spec fn view(&self) -> OutputView {
        match self {
            Output::Print { message } => OutputView::Print { message: message@ },
            Output::Log { level, message } => OutputView::Log { level: *level, message: message@ },
        }
    }
}

/// The upper case form of an ASCII letter; any other character as it is.
pub open spec fn ascii_upper(c: char) -> char {
    if 'a' <= c && c <= 'z' {
        (c as u32 - 32) as char
    } else {
        c
    }
}

/// Whether `s` spells `name`, which is in upper case, whatever the case of its ASCII letters.
pub open spec fn spells(s: Seq<char>, name: Seq<char>) -> bool {
    s.map_values(|c: char| ascii_upper(c)) == name
}

impl LogLevel {
    /// The name of a level, in upper case.
    pub open spec fn name(self) -> Seq<char> {
        match self {
            LogLevel::Error => seq!['E', 'R', 'R', 'O', 'R'],
            LogLevel::Warn => seq!['W', 'A', 'R', 'N'],
            LogLevel::Info => seq!['I', 'N', 'F', 'O'],
            LogLevel::Debug => seq!['D', 'E', 'B', 'U', 'G'],
            LogLevel::Trace => seq!['T', 'R', 'A', 'C', 'E'],
        }
    }
}

/// The level that `s` names, if it names one.
pub open spec fn level_named(s: Seq<char>) -> Option<LogLevel> {
    if spells(s, LogLevel::Error.name()) {
        Some(LogLevel::Error)
    } else if spells(s, LogLevel::Warn.name()) {
        Some(LogLevel::Warn)
    } else if spells(s, LogLevel::Info.name()) {
        Some(LogLevel::Info)
    } else if spells(s, LogLevel::Debug.name()) {
        Some(LogLevel::Debug)
    } else if spells(s, LogLevel::Trace.name()) {
        Some(LogLevel::Trace)
    } else {
        None
    }
}

/// Calls `log::Level::from_str`, and turns its level into a [`LogLevel`] variant by variant.
///
/// Claimed of it: it recognises the names `error`, `warn`, `info`, `debug` and `trace`, in any
/// mixture of upper and lower case ASCII letters, each as the level of that name, and refuses
/// every other string, `off` among them.
#[verifier::external_body]
fn parse_level(s: &str) -> (level: Option<LogLevel>)
    ensures
        level == level_named(s@),
{
    match log::Level::from_str(s) {
        Ok(log::Level::Error) => Some(LogLevel::Error),
        Ok(log::Level::Warn) => Some(LogLevel::Warn),
        Ok(log::Level::Info) => Some(LogLevel::Info),
        Ok(log::Level::Debug) => Some(LogLevel::Debug),
        Ok(log::Level::Trace) => Some(LogLevel::Trace),
        Err(_) => None,
    }
}

/// The characters that count as ASCII whitespace.
pub open spec fn is_ascii_space(c: char) -> bool {
    c == ' ' || c == '\t' || c == '\n' || c == '\x0C' || c == '\r'
}

/// The number of ASCII whitespace characters that `s` begins with.
pub open spec fn leading_spaces(s: Seq<char>) -> nat
    decreases s.len(),
{
    if s.len() > 0 && is_ascii_space(s[0]) {
        1 + leading_spaces(s.drop_first())
    } else {
        0
    }
}

/// `s` without the ASCII whitespace that it begins with.
pub open spec fn trimmed_start(s: Seq<char>) -> Seq<char> {
    s.skip(leading_spaces(s) as int)
}

/// The number of characters before the first space in `s`; all of them if there is none.
pub open spec fn word_len(s: Seq<char>) -> nat
    decreases s.len(),
{
    if s.len() > 0 && s[0] != ' ' {
        1 + word_len(s.drop_first())
    } else {
        0
    }
}

/// The level that a line names and the text after it, if the line is `[LEVEL text`.
pub open spec fn level_and_text(line: Seq<char>) -> Option<(LogLevel, Seq<char>)> {
    let space = word_len(line) as int;
    if line.len() > 0 && line[0] == '[' && space < line.len() {
        match level_named(line.subrange(1, space)) {
            Some(level) => Some((level, trimmed_start(line.skip(space + 1)))),
            None => None,
        }
    } else {
        None
    }
}

proof fn lemma_word_len(s: Seq<char>, n: int)
    requires
        0 <= n <= s.len(),
        forall|j: int| 0 <= j < n ==> s[j] != ' ',
        n < s.len() ==> s[n] == ' ',
    ensures
        word_len(s) == n,
    decreases n,
{
    if n > 0 {
        lemma_word_len(s.drop_first(), n - 1);
    }
}

proof fn lemma_leading_spaces(s: Seq<char>, n: int)
    requires
        0 <= n <= s.len(),
        forall|j: int| 0 <= j < n ==> is_ascii_space(#[trigger] s[j]),
        n < s.len() ==> !is_ascii_space(s[n]),
    ensures
        leading_spaces(s) == n,
    decreases n,
{
    if n > 0 {
        lemma_leading_spaces(s.drop_first(), n - 1);
    }
}

/// Counts the characters before the first space.
fn count_word(s: &str) -> (n: usize)
    ensures
        n == word_len(s@),
        n <= s@.len(),
        n < s@.len() ==> s@[n as int] == ' ',
{
    let len: usize = s.unicode_len();
    let mut n: usize = 0;
    let mut ended = false;
    for c in it: s.chars()
        invariant
            it.seq() == s@,
            len == s@.len(),
            n <= it.index(),
            !ended ==> n == it.index(),
            ended ==> n < it.index() && s@[n as int] == ' ',
            forall|j: int| 0 <= j < n ==> s@[j] != ' ',
    {
        if c == ' ' {
            ended = true;
        } else if !ended {
            n = n + 1;
        }
    }
    proof {
        lemma_word_len(s@, n as int);
    }
    n
}

/// Drops the ASCII whitespace that `s` begins with.
fn trim_start(s: &str) -> (t: &str)
    ensures
        t@ == trimmed_start(s@),
{
    let len: usize = s.unicode_len();
    let mut n: usize = 0;
    let mut ended = false;
    for c in it: s.chars()
        invariant
            it.seq() == s@,
            len == s@.len(),
            n <= it.index(),
            !ended ==> n == it.index(),
            ended ==> n < it.index() && !is_ascii_space(s@[n as int]),
            forall|j: int| 0 <= j < n ==> is_ascii_space(#[trigger] s@[j]),
    {
        if !(c == ' ' || c == '\t' || c == '\n' || c == '\x0C' || c == '\r') {
            ended = true;
        } else if !ended {
            n = n + 1;
        }
    }
    proof {
        lemma_leading_spaces(s@, n as int);
    }
    s.substring_char(n, len)
}

/// Splits a line of the form `[LEVEL text` into its level and its text.
pub fn split_level(line: &str) -> (r: Option<(LogLevel, &str)>)
    ensures
        match r {
            Some((level, text)) => level_and_text(line@) == Some((level, text@)),
            None => level_and_text(line@) is None,
        },
{
    let len: usize = line.unicode_len();
    if len == 0 || line.get_char(0) != '[' {
        return None;
    }
    let space: usize = count_word(line);
    if space == len {
        return None;
    }
    match parse_level(line.substring_char(1, space)) {
        Some(level) => {
            proof {
                assert(line@.subrange(space + 1, len as int) =~= line@.skip(space + 1));
            }
            Some((level, trim_start(line.substring_char(space + 1, len))))
        },
        None => None,
    }
}

/// Relays the redirector's standard error to the log.
///
/// Only the first line of a message names its level, so the level of the last line that named
/// one is kept.
#[derive(Clone, Copy, Debug, PartialEq, Eq, Structural)]
pub struct StderrRelay {
    pub level: LogLevel,
}

impl StderrRelay {
    /// The relay after `line`.
    pub open spec fn after(self, line: Seq<char>, shutting_down: bool) -> StderrRelay {
        if shutting_down {
            self
        } else {
            match level_and_text(line) {
                Some((level, _)) => StderrRelay { level },
                None => self,
            }
        }
    }

    /// The relay after a run of lines, while this process is not shutting down.
    pub open spec fn after_lines(self, lines: Seq<Seq<char>>) -> StderrRelay
        decreases lines.len(),
    {
        if lines.len() == 0 {
            self
        } else {
            self.after_lines(lines.drop_last()).after(lines.last(), false)
        }
    }

    /// Where `line` goes.
    pub open spec fn output(self, line: Seq<char>, shutting_down: bool) -> OutputView {
        if shutting_down {
            OutputView::Print { message: line }
        } else {
            match level_and_text(line) {
                Some((level, text)) => OutputView::Log { level, message: seq!['['] + text },
                None => OutputView::Log { level: self.level, message: line },
            }
        }
    }

    /// Starts at the level for messages that name none.
    pub fn new() -> (relay: StderrRelay)
        ensures
            relay.level == LogLevel::Error,
    {
        StderrRelay { level: LogLevel::Error }
    }

    /// Decides where a line goes. During shutdown nothing is logged.
    pub fn relay(&mut self, line: String, shutting_down: bool) -> (out: Output)
        ensures
            *final(self) == old(self).after(line@, shutting_down),
            out@ == old(self).output(line@, shutting_down),
    {
        if shutting_down {
            return Output::Print { message: line };
        }
        match split_level(line.as_str()) {
            Some((level, text)) => {
                proof {
                    reveal_strlit("[");
                    assert("["@ =~= seq!['[']);
                }
                self.level = level;
                Output::Log { level, message: "[".to_owned().concat(text) }
            },
            None => Output::Log { level: self.level, message: line },
        }
    }
}

/// Every spelling of a level's name names that level, and holds no space.
pub proof fn level_is_named_by_its_spellings(word: Seq<char>, level: LogLevel)
    ensures
        level_named(word) == Some(level) <==> spells(word, level.name()),
        level_named(word) is Some ==> forall|i: int| 0 <= i < word.len() ==> word[i] != ' ',
{
    let upper = word.map_values(|c: char| ascii_upper(c));
    assert(LogLevel::Error.name()[0] == 'E');
    assert(LogLevel::Warn.name()[0] == 'W');
    assert(LogLevel::Info.name()[0] == 'I');
    assert(LogLevel::Debug.name()[0] == 'D');
    assert(LogLevel::Trace.name()[0] == 'T');
    if let Some(named) = level_named(word) {
        assert(upper == named.name());
        assert forall|i: int| 0 <= i < word.len() implies word[i] != ' ' by {
            assert(upper[i] == ascii_upper(word[i]));
            assert(named.name()[i] != ' ');
        }
    }
}

proof fn lemma_spells(word: Seq<char>, name: Seq<char>)
    ensures
        spells(word, name) <==> word.len() == name.len() && forall|i: int|
            0 <= i < word.len() ==> ascii_upper(#[trigger] word[i]) == name[i],
{
    let upper = word.map_values(|c: char| ascii_upper(c));
    if spells(word, name) {
        assert forall|i: int| 0 <= i < word.len() implies ascii_upper(#[trigger] word[i])
            == name[i] by {
            assert(upper[i] == name[i]);
        }
    }
    if word.len() == name.len() && forall|i: int|
        0 <= i < word.len() ==> ascii_upper(#[trigger] word[i]) == name[i] {
        assert(upper =~= name);
    }
}

/// The words that name a level are those five, letter by letter in upper or lower case.
pub proof fn levels_are_named_letter_by_letter(word: Seq<char>)
    ensures
        level_named(word) == Some(LogLevel::Error) <==> word.len() == 5
            && (word[0] == 'E' || word[0] == 'e')
            && (word[1] == 'R' || word[1] == 'r')
            && (word[2] == 'R' || word[2] == 'r')
            && (word[3] == 'O' || word[3] == 'o')
            && (word[4] == 'R' || word[4] == 'r'),
        level_named(word) == Some(LogLevel::Warn) <==> word.len() == 4
            && (word[0] == 'W' || word[0] == 'w')
            && (word[1] == 'A' || word[1] == 'a')
            && (word[2] == 'R' || word[2] == 'r')
            && (word[3] == 'N' || word[3] == 'n'),
        level_named(word) == Some(LogLevel::Info) <==> word.len() == 4
            && (word[0] == 'I' || word[0] == 'i')
            && (word[1] == 'N' || word[1] == 'n')
            && (word[2] == 'F' || word[2] == 'f')
            && (word[3] == 'O' || word[3] == 'o'),
        level_named(word) == Some(LogLevel::Debug) <==> word.len() == 5
            && (word[0] == 'D' || word[0] == 'd')
            && (word[1] == 'E' || word[1] == 'e')
            && (word[2] == 'B' || word[2] == 'b')
            && (word[3] == 'U' || word[3] == 'u')
            && (word[4] == 'G' || word[4] == 'g'),
        level_named(word) == Some(LogLevel::Trace) <==> word.len() == 5
            && (word[0] == 'T' || word[0] == 't')
            && (word[1] == 'R' || word[1] == 'r')
            && (word[2] == 'A' || word[2] == 'a')
            && (word[3] == 'C' || word[3] == 'c')
            && (word[4] == 'E' || word[4] == 'e'),
{
    lemma_spells(word, LogLevel::Error.name());
    lemma_spells(word, LogLevel::Warn.name());
    lemma_spells(word, LogLevel::Info.name());
    lemma_spells(word, LogLevel::Debug.name());
    lemma_spells(word, LogLevel::Trace.name());
    level_is_named_by_its_spellings(word, LogLevel::Error);
    level_is_named_by_its_spellings(word, LogLevel::Warn);
    level_is_named_by_its_spellings(word, LogLevel::Info);
    level_is_named_by_its_spellings(word, LogLevel::Debug);
    level_is_named_by_its_spellings(word, LogLevel::Trace);
}

/// A line of a bracket, a word that names a level, a space, a padding of spaces, tabs, line feeds, form
/// feeds and carriage returns, and a text that begins with none of these, is logged at that level,
/// as the bracket and the whole text; and that level is kept.
pub proof fn level_and_padding_are_taken_off(
    relay: StderrRelay,
    level: LogLevel,
    word: Seq<char>,
    padding: Seq<char>,
    text: Seq<char>,
)
    requires
        level_named(word) == Some(level),
        forall|i: int|
            0 <= i < padding.len() ==> #[trigger] padding[i] == ' ' || padding[i] == '\t'
                || padding[i] == '\n' || padding[i] == '\x0C' || padding[i] == '\r',
        text.len() > 0 ==> text[0] != ' ' && text[0] != '\t' && text[0] != '\n' && text[0] != '\x0C'
            && text[0] != '\r',
    ensures
        level_and_text(seq!['['] + word + seq![' '] + padding + text) == Some((level, text)),
        relay.output(seq!['['] + word + seq![' '] + padding + text, false) == (OutputView::Log {
            level,
            message: seq!['['] + text,
        }),
        relay.after(seq!['['] + word + seq![' '] + padding + text, false) == (StderrRelay { level }),
{
    let line = seq!['['] + word + seq![' '] + padding + text;
    let space = 1 + word.len() as int;
    level_is_named_by_its_spellings(word, level);
    assert forall|j: int| 0 <= j < space implies line[j] != ' ' by {
        if j > 0 {
            assert(line[j] == word[j - 1]);
        }
    }
    lemma_word_len(line, space);
    assert(line.subrange(1, space) =~= word);
    let rest = line.skip(space + 1);
    assert(rest =~= padding + text);
    assert forall|j: int| 0 <= j < padding.len() implies is_ascii_space(#[trigger] rest[j]) by {
        assert(rest[j] == padding[j]);
    }
    lemma_leading_spaces(rest, padding.len() as int);
    assert(trimmed_start(rest) =~= text);
}

/// Every other line, one that does not begin with a bracket or has no space that ends a level's name
/// right after it, is logged as it is, with all its characters, at the level that the relay keeps.
pub proof fn line_without_a_level_is_logged_unchanged(relay: StderrRelay, line: Seq<char>)
    requires
        line.len() > 0 && line[0] == '[' ==> forall|k: int|
            1 <= k < line.len() && #[trigger] line[k] == ' ' ==> level_named(line.subrange(1, k))
                is None,
    ensures
        level_and_text(line) is None,
        relay.output(line, false) == (OutputView::Log { level: relay.level, message: line }),
        relay.after(line, false) == relay,
{
    lemma_word_ends(line);
}

proof fn lemma_word_ends(s: Seq<char>)
    ensures
        word_len(s) <= s.len(),
        word_len(s) < s.len() ==> s[word_len(s) as int] == ' ',
    decreases s.len(),
{
    if s.len() > 0 && s[0] != ' ' {
        lemma_word_ends(s.drop_first());
    }
}

/// The view of an output has the same destination and level, and all characters of its message.
pub proof fn output_view_keeps_everything(level: LogLevel, message: String)
    ensures
        (Output::Print { message })@ == (OutputView::Print { message: message@ }),
        (Output::Log { level, message })@ == (OutputView::Log { level, message: message@ }),
{
}

/// A line that consists of a bracket, a level, a space, perhaps more whitespace, and a text is
/// logged at that level, as the bracket and the text; and that level is kept.
pub proof fn levelled_line_is_logged_at_its_level(
    relay: StderrRelay,
    level: LogLevel,
    word: Seq<char>,
    padding: Seq<char>,
    text: Seq<char>,
)
    requires
        spells(word, level.name()),
        forall|i: int| 0 <= i < padding.len() ==> is_ascii_space(#[trigger] padding[i]),
        text.len() > 0 ==> !is_ascii_space(text[0]),
    ensures
        relay.output(seq!['['] + word + seq![' '] + padding + text, false) == (OutputView::Log {
            level,
            message: seq!['['] + text,
        }),
        relay.after(seq!['['] + word + seq![' '] + padding + text, false).level == level,
{
    let line = seq!['['] + word + seq![' '] + padding + text;
    let space = 1 + word.len() as int;
    level_is_named_by_its_spellings(word, level);
    assert forall|j: int| 0 <= j < space implies line[j] != ' ' by {
        if j > 0 {
            assert(line[j] == word[j - 1]);
        }
    }
    lemma_word_len(line, space);
    assert(line.subrange(1, space) =~= word);
    let rest = line.skip(space + 1);
    assert(rest =~= padding + text);
    assert forall|j: int| 0 <= j < padding.len() implies is_ascii_space(#[trigger] rest[j]) by {
        assert(rest[j] == padding[j]);
    }
    lemma_leading_spaces(rest, padding.len() as int);
    assert(trimmed_start(rest) =~= text);
}

/// Through a run of lines, while this process is not shutting down, the relay keeps the level of
/// the last line that names one.
pub proof fn relay_keeps_the_last_level(relay: StderrRelay, lines: Seq<Seq<char>>, last: int)
    requires
        -1 <= last < lines.len(),
        last >= 0 ==> level_and_text(lines[last]) is Some,
        forall|i: int| last < i < lines.len() ==> level_and_text(#[trigger] lines[i]) is None,
    ensures
        last >= 0 ==> (level_and_text(lines[last]) matches Some((level, _)) && relay.after_lines(
            lines,
        ).level == level),
        last == -1 ==> relay.after_lines(lines) == relay,
    decreases lines.len(),
{
    if lines.len() > 0 {
        if last < lines.len() - 1 {
            assert(level_and_text(lines[lines.len() - 1]) is None);
            relay_keeps_the_last_level(relay, lines.drop_last(), last);
        }
    }
}

/// While this process is shutting down nothing is logged: every line is printed as it is, and the
/// level is kept.
pub proof fn relay_prints_during_shutdown(relay: StderrRelay, line: Seq<char>)
    ensures
        relay.output(line, true) == (OutputView::Print { message: line }),
        relay.after(line, true) == relay,
{
}

/// What is reported when the redirector process has ended. `status` describes how it did.
pub open spec fn exit_output(
    succeeded: bool,
    shutting_down: bool,
    status: Seq<char>,
) -> Option<OutputView> {
    if succeeded && shutting_down {
        None
    } else if succeeded {
        Some(
            OutputView::Log {
                level: LogLevel::Debug,
                message: "[linux-redirector] exited successfully."@,
            },
        )
    } else if shutting_down {
        Some(
            OutputView::Print {
                message: "[linux-redirector] exited during shutdown: "@ + status,
            },
        )
    } else {
        Some(
            OutputView::Log {
                level: LogLevel::Error,
                message: "[linux-redirector] exited: "@ + status,
            },
        )
    }
}

/// What is reported of an end, whatever the status text: nothing of a success during shutdown; a
/// fixed text, at the level for debugging, of a success otherwise, and only then; and of any other
/// end the whole status after a fixed text, printed during shutdown and logged as an error
/// otherwise.
pub proof fn exit_report_fits_the_end(status: Seq<char>)
    ensures
        exit_output(true, true, status) is None,
        forall|succeeded: bool, shutting_down: bool|
            #[trigger] exit_output(succeeded, shutting_down, status) == Some(
                OutputView::Log {
                    level: LogLevel::Debug,
                    message: "[linux-redirector] exited successfully."@,
                },
            ) <==> succeeded && !shutting_down,
        exit_output(false, false, status) matches Some(OutputView::Log { level, message })
            && level == LogLevel::Error && "[linux-redirector] exited: "@.is_prefix_of(message)
            && message.skip("[linux-redirector] exited: "@.len() as int) == status,
        exit_output(false, true, status) matches Some(OutputView::Print { message })
            && "[linux-redirector] exited during shutdown: "@.is_prefix_of(message)
            && message.skip("[linux-redirector] exited during shutdown: "@.len() as int) == status,
{
    let logged = "[linux-redirector] exited: "@;
    let printed = "[linux-redirector] exited during shutdown: "@;
    assert((logged + status).skip(logged.len() as int) =~= status);
    assert((printed + status).skip(printed.len() as int) =~= status);
}

/// While this process is shutting down the end of the redirector process is not logged; and an end
/// without success is never passed over.
pub proof fn exit_is_not_logged_during_shutdown(succeeded: bool, status: Seq<char>)
    ensures
        !(exit_output(succeeded, true, status) matches Some(OutputView::Log { .. })),
        forall|shutting_down: bool|
            !succeeded ==> #[trigger] exit_output(succeeded, shutting_down, status) is Some,
{
}

/// Decides what is reported when the redirector process has ended. `status` describes how it did.
pub fn report_exit(succeeded: bool, shutting_down: bool, status: &str) -> (out: Option<Output>)
    ensures
        match out {
            Some(o) => exit_output(succeeded, shutting_down, status@) == Some(o@),
            None => exit_output(succeeded, shutting_down, status@) is None,
        },
{
    if succeeded {
        if shutting_down {
            None
        } else {
            Some(
                Output::Log {
                    level: LogLevel::Debug,
                    message: "[linux-redirector] exited successfully.".to_owned(),
                },
            )
        }
    } else if shutting_down {
        Some(
            Output::Print {
                message: "[linux-redirector] exited during shutdown: ".to_owned().concat(status),
            },
        )
    } else {
        Some(
            Output::Log {
                level: LogLevel::Error,
                message: "[linux-redirector] exited: ".to_owned().concat(status),
            },
        )
    }
}

} // verus!
