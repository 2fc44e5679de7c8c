//! The command loop: what a line of input asks for, and what follows each
//! step of a round trip.
//!
//! A [`Session`] takes the events of the loop one at a time (a line was
//! read, the write ended, the read ended) and answers each with the
//! [`Action`] that the caller carries out next. The caller does the input
//! and output; nothing here blocks or prints.

use crate::error::ProtocolError;
use vstd::prelude::*;
use vstd::utf8::encode_utf8;

verus! {

/// Whether `char::is_whitespace` holds of a character: whether it has the
/// Unicode property White_Space.
pub uninterp spec fn is_whitespace_char(c: char) -> bool;

/// What `str::to_uppercase` makes of a text: its uppercase equivalent by
/// the Unicode case mapping.
pub uninterp spec fn uppercase_of(text: Seq<char>) -> Seq<char>;

/// `char::is_whitespace`. Nothing is claimed of which characters are
/// whitespace, only that the answer depends on the character alone.
#[verifier::external_body]
fn is_whitespace(c: char) -> (r: bool)
    ensures
        r == is_whitespace_char(c),
{
    c.is_whitespace()
}

/// `str::to_uppercase`. Nothing is claimed of the mapping, only that the
/// result depends on the text alone.
#[verifier::external_body]
fn to_uppercase(text: &str) -> (r: String)
    ensures
        r@ == uppercase_of(text@),
{
    text.to_uppercase()
}

/// A text without the whitespace at its start.
pub open spec fn trim_start(text: Seq<char>) -> Seq<char>
    decreases text.len(),
{
    if text.len() > 0 && is_whitespace_char(text.first()) {
        trim_start(text.drop_first())
    } else {
        text
    }
}

/// A text without the whitespace at its end.
pub open spec fn trim_end(text: Seq<char>) -> Seq<char>
    decreases text.len(),
{
    if text.len() > 0 && is_whitespace_char(text.last()) {
        trim_end(text.drop_last())
    } else {
        text
    }
}

/// A text without the whitespace at its start and at its end.
pub open spec fn trimmed(text: Seq<char>) -> Seq<char> {
    trim_end(trim_start(text))
}

/// The number of characters before the first space of a text, which is the
/// length of a text without a space.
pub open spec fn first_space(text: Seq<char>) -> int
    decreases text.len(),
{
    if text.len() == 0 || text.first() == ' ' {
        0
    } else {
        1 + first_space(text.drop_first())
    }
}

/// The command word of a trimmed line: all before its first space.
pub open spec fn command_word(text: Seq<char>) -> Seq<char> {
    text.subrange(0, first_space(text))
}

/// The argument of a trimmed line: all after its first space, and nothing
/// if it has no space.
pub open spec fn command_argument(text: Seq<char>) -> Seq<char> {
    if first_space(text) < text.len() {
        text.subrange(first_space(text) + 1, text.len() as int)
    } else {
        Seq::empty()
    }
}

/// What a line of input asks for.
#[derive(Debug, PartialEq, Eq)]
pub enum Command {
    /// Nothing: the line is empty or all whitespace.
    Empty,
    /// Leave the loop.
    Quit,
    /// Send the argument and show what comes back.
    Write(String),
    /// The line is no command.
    Invalid,
}

/// A [`Command`], with its argument as a sequence of characters.
pub enum CommandView {
    Empty,
    Quit,
    Write(Seq<char>),
    Invalid,
}

impl View for Command {
    type V = CommandView;

    open spec fn view(&self) -> CommandView {
        match self {
            Command::Empty => CommandView::Empty,
            Command::Quit => CommandView::Quit,
            Command::Write(argument) => CommandView::Write(argument@),
            Command::Invalid => CommandView::Invalid,
        }
    }
}

/// The command that an uppercase command word and an argument stand for.
pub open spec fn command_for(upper: Seq<char>, argument: Seq<char>) -> CommandView {
    if upper.len() == 0 {
        CommandView::Empty
    } else if upper == seq!['Q', 'U', 'I', 'T'] || upper == seq!['E', 'X', 'I', 'T'] {
        CommandView::Quit
    } else if upper == seq!['W', 'R', 'I', 'T', 'E'] || upper == seq!['P', 'U', 'T'] {
        CommandView::Write(argument)
    } else {
        CommandView::Invalid
    }
}

/// The command that a line of input stands for. The line is trimmed and
/// split at its first space; its first part, in uppercase, is the command
/// word, the rest the argument.
pub open spec fn command_of(line: Seq<char>) -> CommandView {
    let text = trimmed(line);
    let word = command_word(text);
    if word.len() == 0 {
        CommandView::Empty
    } else {
        command_for(uppercase_of(word), command_argument(text))
    }
}

/// Whether two texts are the same.
fn same_text(a: &str, b: &str) -> (r: bool)
    ensures
        r == (a@ == b@),
{
    String::from_str(a) == String::from_str(b)
}

/// Tells the command from a command word that is already in uppercase, and
/// its argument.
pub fn classify_command(upper: &str, argument: &str) -> (r: Command)
    ensures
        r@ == command_for(upper@, argument@),
{
    proof {
        reveal_strlit("QUIT");
        reveal_strlit("EXIT");
        reveal_strlit("WRITE");
        reveal_strlit("PUT");
        assert("QUIT"@ =~= seq!['Q', 'U', 'I', 'T']);
        assert("EXIT"@ =~= seq!['E', 'X', 'I', 'T']);
        assert("WRITE"@ =~= seq!['W', 'R', 'I', 'T', 'E']);
        assert("PUT"@ =~= seq!['P', 'U', 'T']);
    }
    if upper.unicode_len() == 0 {
        Command::Empty
    } else if same_text(upper, "QUIT") || same_text(upper, "EXIT") {
        Command::Quit
    } else if same_text(upper, "WRITE") || same_text(upper, "PUT") {
        Command::Write(String::from_str(argument))
    } else {
        Command::Invalid
    }
}

/// The characters of a text.
fn chars_of(text: &str) -> (r: Vec<char>)
    ensures
        r@ == text@,
{
    let mut chars: Vec<char> = Vec::new();
    for c in it: text.chars()
        invariant
            it.seq() == text@,
            chars@ == it.seq().take(it.index() as int),
    {
        chars.push(c);
    }
    assert(chars@ =~= text@);
    chars
}

/// Takes the whitespace off both ends of a line.
pub fn trim_line(line: &str) -> (r: &str)
    ensures
        r@ == trimmed(line@),
{
    let chars = chars_of(line);
    let length = chars.len();
    let mut start: usize = 0;
    assert(line@.subrange(0, length as int) =~= line@);
    while start < length && is_whitespace(chars[start])
        invariant
            chars@ == line@,
            length == chars@.len(),
            start <= length,
            trim_start(line@) == trim_start(line@.subrange(start as int, length as int)),
        decreases length - start,
    {
        assert(line@.subrange(start as int, length as int).drop_first() =~= line@.subrange(
            start + 1,
            length as int,
        ));
        start += 1;
    }
    let mut end: usize = length;
    while end > start && is_whitespace(chars[end - 1])
        invariant
            chars@ == line@,
            length == chars@.len(),
            start <= end <= length,
            trimmed(line@) == trim_end(line@.subrange(start as int, end as int)),
        decreases end,
    {
        assert(line@.subrange(start as int, end as int).drop_last() =~= line@.subrange(
            start as int,
            end - 1,
        ));
        end -= 1;
    }
    line.substring_char(start, end)
}

/// Splits a trimmed line at its first space into the command word and the
/// argument. Without a space the whole line is the command word, and the
/// argument is empty.
pub fn split_command(text: &str) -> (r: (&str, &str))
    ensures
        r.0@ == command_word(text@),
        r.1@ == command_argument(text@),
{
    let chars = chars_of(text);
    let length = chars.len();
    let mut space: usize = 0;
    assert(text@.subrange(0, length as int) =~= text@);
    while space < length && chars[space] != ' '
        invariant
            chars@ == text@,
            length == chars@.len(),
            space <= length,
            first_space(text@) == space + first_space(text@.subrange(space as int, length as int)),
        decreases length - space,
    {
        assert(text@.subrange(space as int, length as int).drop_first() =~= text@.subrange(
            space + 1,
            length as int,
        ));
        space += 1;
    }
    assert(first_space(text@) == space);
    let word = text.substring_char(0, space);
    let argument = if space < length {
        text.substring_char(space + 1, length)
    } else {
        ""
    };
    proof {
        reveal_strlit("");
        assert(argument@ =~= command_argument(text@));
    }
    (word, argument)
}

/// Reads a line of input as a command.
///
/// Whitespace around the line does not count. The command word ends at the
/// first space and is taken without regard to case; what follows that
/// space, further spaces included, is the argument.
pub fn parse_command(line: &str) -> (r: Command)
    ensures
        r@ == command_of(line@),
{
    let (word, argument) = split_command(trim_line(line));
    if word.unicode_len() == 0 {
        return Command::Empty;
    }
    let upper = to_uppercase(word);
    classify_command(upper.as_str(), argument)
}

/// What the caller of a [`Session`] carries out next.
#[derive(Debug, PartialEq, Eq)]
pub enum Action {
    /// Nothing to do: show the prompt and read a line.
    Prompt,
    /// Write these bytes to the channel, as they are.
    Write(Vec<u8>),
    /// Read one whole message from the channel.
    Read,
    /// Show this message, as text and as bytes; then prompt.
    Show(Vec<u8>),
    /// Say that the line is no command; then prompt.
    RejectCommand,
    /// Say that the round trip failed with this error; then prompt.
    Report(ProtocolError),
    /// Leave the loop.
    Quit,
}

/// An [`Action`], with its bytes as a sequence.
pub enum ActionView {
    Prompt,
    Write(Seq<u8>),
    Read,
    Show(Seq<u8>),
    RejectCommand,
    Report(ProtocolError),
    Quit,
}

impl View for Action {
    type V = ActionView;

    open spec fn view(&self) -> ActionView {
        match self {
            Action::Prompt => ActionView::Prompt,
            Action::Write(bytes) => ActionView::Write(bytes@),
            Action::Read => ActionView::Read,
            Action::Show(bytes) => ActionView::Show(bytes@),
            Action::RejectCommand => ActionView::RejectCommand,
            Action::Report(error) => ActionView::Report(*error),
            Action::Quit => ActionView::Quit,
        }
    }
}

/// Where a session stands.
#[derive(Clone, Copy, Debug, PartialEq, Eq, Structural)]
pub enum SessionPhase {
    /// Between round trips: the next event is a line of input.
    Prompting,
    /// A write is under way: the next event is its end.
    Writing,
    /// The write is done and the read under way: the next event is its end.
    Reading,
    /// The loop has ended.
    Closed,
}

/// The action that a command asks for. The argument of a write goes out as
/// its UTF-8 bytes.
pub open spec fn action_for(command: CommandView) -> ActionView {
    match command {
        CommandView::Empty => ActionView::Prompt,
        CommandView::Quit => ActionView::Quit,
        CommandView::Write(argument) => ActionView::Write(encode_utf8(argument)),
        CommandView::Invalid => ActionView::RejectCommand,
    }
}

/// The action after a write that ended with `outcome`: the read of the
/// reply, or the report of the failure.
pub open spec fn action_after_write(outcome: Result<u32, ProtocolError>) -> ActionView {
    match outcome {
        Ok(_) => ActionView::Read,
        Err(error) => ActionView::Report(error),
    }
}

/// The action after a read that ended with `outcome`: the display of the
/// message, or the report of the failure.
pub open spec fn action_after_read(outcome: Result<Seq<u8>, ProtocolError>) -> ActionView {
    match outcome {
        Ok(message) => ActionView::Show(message),
        Err(error) => ActionView::Report(error),
    }
}

/// Where a session stands once it has answered with `action`.
pub open spec fn phase_after(action: ActionView) -> SessionPhase {
    match action {
        ActionView::Write(_) => SessionPhase::Writing,
        ActionView::Read => SessionPhase::Reading,
        ActionView::Quit => SessionPhase::Closed,
        _ => SessionPhase::Prompting,
    }
}

/// Says what a command asks for.
pub fn dispatch(command: Command) -> (r: Action)
    ensures
        r@ == action_for(command@),
{
    match command {
        Command::Empty => Action::Prompt,
        Command::Quit => Action::Quit,
        Command::Write(argument) => Action::Write(argument.as_str().as_bytes_vec()),
        Command::Invalid => Action::RejectCommand,
    }
}

/// One command loop. A round trip is one write and then one read to
/// completion; no line is taken while one is under way, and a failed round
/// trip is reported and leaves the loop running.
pub struct Session {
    phase: SessionPhase,
}

impl View for Session {
    type V = SessionPhase;

    closed spec fn view(&self) -> SessionPhase {
        self.phase
    }
}

impl Session {
    /// A session that waits for its first line.
    pub fn new() -> (r: Self)
        ensures
            r@ == SessionPhase::Prompting,
    {
        Session { phase: SessionPhase::Prompting }
    }

    /// Where the session stands.
    pub fn phase(&self) -> (r: SessionPhase)
        ensures
            r == self@,
    {
        self.phase
    }

    /// Takes a line of input.
    pub fn line(&mut self, line: &str) -> (r: Action)
        requires
            old(self)@ == SessionPhase::Prompting,
        ensures
            r@ == action_for(command_of(line@)),
            final(self)@ == phase_after(r@),
    {
        let action = dispatch(parse_command(line));
        match action {
            Action::Write(_) => {
                self.phase = SessionPhase::Writing;
            },
            Action::Quit => {
                self.phase = SessionPhase::Closed;
            },
            _ => {},
        }
        action
    }

    /// Takes the end of the write: the bytes written, or the error.
    pub fn written(&mut self, outcome: Result<u32, ProtocolError>) -> (r: Action)
        requires
            old(self)@ == SessionPhase::Writing,
        ensures
            r@ == action_after_write(outcome),
            final(self)@ == phase_after(r@),
    {
        match outcome {
            Ok(_) => {
                self.phase = SessionPhase::Reading;
                Action::Read
            },
            Err(error) => {
                self.phase = SessionPhase::Prompting;
                Action::Report(error)
            },
        }
    }

    /// Takes the end of the read: the message, or the error.
    pub fn received(&mut self, outcome: Result<Vec<u8>, ProtocolError>) -> (r: Action)
        requires
            old(self)@ == SessionPhase::Reading,
        ensures
            r@ == action_after_read(
                match outcome {
                    Ok(message) => Ok(message@),
                    Err(error) => Err(error),
                },
            ),
            final(self)@ == SessionPhase::Prompting,
    {
        self.phase = SessionPhase::Prompting;
        match outcome {
            Ok(message) => Action::Show(message),
            Err(error) => Action::Report(error),
        }
    }
}

} // verus!
