//! The message exchange over an established data channel: what a line of
//! console input means, and what an inbound message says.

use vstd::prelude::*;
use crate::error::SignalError;
use crate::text::{from_utf8, lowercased, same_text, to_lowercase, trim, trimmed, utf8_text};

verus! {

/// What a line of console input asks for.
#[derive(Debug, PartialEq, Eq)]
pub enum ConsoleCommand {
    /// End the interactive loop.
    Quit,
    /// Send the line as a message.
    Send(String),
}

/// Mathematical value of a [`ConsoleCommand`].
pub enum ConsoleCommandView {
    Quit,
    Send(Seq<char>),
}

impl View for ConsoleCommand {
    type V = ConsoleCommandView;

    open spec fn view(&self) -> ConsoleCommandView {
        match self {
            ConsoleCommand::Quit => ConsoleCommandView::Quit,
            ConsoleCommand::Send(line) => ConsoleCommandView::Send(line@),
        }
    }
}

/// The form in which a line is compared: trimmed, in lower case.
pub open spec fn normalized(line: Seq<char>) -> Seq<char> {
    lowercased(trimmed(line))
}

/// What a line asks for, given its normalized form: `quit` ends the loop,
/// every other line is sent as it was typed.
pub open spec fn command_for(normalized_line: Seq<char>, line: Seq<char>) -> ConsoleCommandView {
    if normalized_line == "quit"@ {
        ConsoleCommandView::Quit
    } else {
        ConsoleCommandView::Send(line)
    }
}

/// Decides what a line asks for, from the line and its normalized form.
pub fn command_from_normalized(normalized_line: &str, line: String) -> (command: ConsoleCommand)
    ensures
        command@ == command_for(normalized_line@, line@),
{
    if same_text(normalized_line, "quit") {
        ConsoleCommand::Quit
    } else {
        ConsoleCommand::Send(line)
    }
}

/// Decides what a line of console input asks for: the word `quit`, in any
/// case and with any white space around it, ends the interactive loop;
/// every other line is sent as a message.
pub fn console_command(line: String) -> (command: ConsoleCommand)
    ensures
        command@ == command_for(normalized(line@), line@),
{
    let normalized_line = to_lowercase(trim(line.as_str()));
    command_from_normalized(normalized_line.as_str(), line)
}

/// Mathematical value of the outcome of reading an inbound message.
pub open spec fn text_outcome(r: Result<String, SignalError>) -> Option<Seq<char>> {
    match r {
        Ok(text) => Some(text@),
        Err(_) => None,
    }
}

/// Reads the text of a message that arrived over the data channel. Fails
/// with `Decode` exactly where the bytes are not valid UTF-8.
pub fn inbound_message(data: Vec<u8>) -> (r: Result<String, SignalError>)
    ensures
        text_outcome(r) == utf8_text(data@),
        r is Err ==> r == Err::<String, SignalError>(SignalError::Decode),
{
    match from_utf8(data) {
        Some(text) => Ok(text),
        None => Err(SignalError::Decode),
    }
}

} // verus!
