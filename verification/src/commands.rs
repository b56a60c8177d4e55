//! The terminal client's command line: what a line of input asks for.
//!
//! A line that begins with a slash is a command; any other line is chat.

use vstd::prelude::*;
use vstd::string::*;
use crate::protocol::{Incoming, IncomingView};
use crate::registry::{fresh_identity, hyphenated, identity_text};
use crate::text::{after_first, before_first, str_eq, take_after, take_before, trim, trimmed};

verus! {

/// The text that `str::to_lowercase` makes of `s`.
pub uninterp spec fn lowercased(s: Seq<char>) -> Seq<char>;

/// Calls `str::to_lowercase`.
///
/// Trusted: the result is the value that the name [`lowercased`] stands
/// for.
#[verifier::external_body]
fn lowercase(s: &str) -> (r: String)
    ensures
        r@ == lowercased(s@),
{
    s.to_lowercase()
}

/// What a line of input asks for.
#[derive(Debug, Clone, PartialEq, Eq)]
pub enum Command {
    /// Nothing: the line is empty.
    Nothing,
    /// Send the request.
    Send(Incoming),
    /// Send the question, and tell the user that the answer may take a
    /// while.
    Ask(Incoming),
    /// The command lacks its argument: show how it is used.
    MissingArgument { usage: String },
    /// Show the list of commands.
    Help,
    /// Leave the client.
    Quit,
    /// No such command: the word is shown to the user.
    Unknown { word: String },
}

/// The view of a [`Command`].
pub enum CommandView {
    Nothing,
    Send(IncomingView),
    Ask(IncomingView),
    MissingArgument { usage: Seq<char> },
    Help,
    Quit,
    Unknown { word: Seq<char> },
}

impl View for Command {
    type V = CommandView;

    open spec fn view(&self) -> CommandView {
        match *self {
            Command::Nothing => CommandView::Nothing,
            Command::Send(request) => CommandView::Send(request@),
            Command::Ask(request) => CommandView::Ask(request@),
            Command::MissingArgument { usage } => CommandView::MissingArgument { usage: usage@ },
            Command::Help => CommandView::Help,
            Command::Quit => CommandView::Quit,
            Command::Unknown { word } => CommandView::Unknown { word: word@ },
        }
    }
}

/// What the command `word` (in lower case) with the trimmed argument
/// `arg` asks for. A ping without a token of its own carries `token`.
pub open spec fn command_for(word: Seq<char>, arg: Seq<char>, token: Seq<char>) -> CommandView {
    if word == "/name"@ {
        if arg.len() == 0 {
            CommandView::MissingArgument { usage: "/name <username>"@ }
        } else {
            CommandView::Send(IncomingView::SetName { name: arg })
        }
    } else if word == "/status"@ {
        CommandView::Send(IncomingView::Status)
    } else if word == "/users"@ {
        CommandView::Send(IncomingView::ListUsers)
    } else if word == "/ping"@ {
        CommandView::Send(
            IncomingView::Ping {
                token: Some(
                    if arg.len() == 0 {
                        token
                    } else {
                        arg
                    },
                ),
            },
        )
    } else if word == "/ai"@ {
        if arg.len() == 0 {
            CommandView::MissingArgument { usage: "/ai <question>"@ }
        } else {
            CommandView::Ask(IncomingView::Ai { prompt: arg })
        }
    } else if word == "/help"@ {
        CommandView::Help
    } else if word == "/quit"@ || word == "/exit"@ || word == "/q"@ {
        CommandView::Quit
    } else {
        CommandView::Unknown { word }
    }
}

/// Decides what the command `word` (in lower case) with the trimmed
/// argument `arg` asks for; see [`command_for`].
pub fn decide_command(word: &str, arg: &str, token: String) -> (r: Command)
    ensures
        r@ == command_for(word@, arg@, token@),
{
    let bare = arg.unicode_len() == 0;
    if str_eq(word, "/name") {
        if bare {
            Command::MissingArgument { usage: String::from_str("/name <username>") }
        } else {
            Command::Send(Incoming::SetName { name: String::from_str(arg) })
        }
    } else if str_eq(word, "/status") {
        Command::Send(Incoming::Status)
    } else if str_eq(word, "/users") {
        Command::Send(Incoming::ListUsers)
    } else if str_eq(word, "/ping") {
        let token = if bare {
            token
        } else {
            String::from_str(arg)
        };
        Command::Send(Incoming::Ping { token: Some(token) })
    } else if str_eq(word, "/ai") {
        if bare {
            Command::MissingArgument { usage: String::from_str("/ai <question>") }
        } else {
            Command::Ask(Incoming::Ai { prompt: String::from_str(arg) })
        }
    } else if str_eq(word, "/help") {
        Command::Help
    } else if str_eq(word, "/quit") || str_eq(word, "/exit") || str_eq(word, "/q") {
        Command::Quit
    } else {
        Command::Unknown { word: String::from_str(word) }
    }
}

/// What the trimmed line `line` asks for, where the command word in lower
/// case is `word` and the trimmed argument is `arg`.
pub open spec fn line_means(line: Seq<char>, word: Seq<char>, arg: Seq<char>, token: Seq<char>) -> CommandView {
    if line.len() == 0 {
        CommandView::Nothing
    } else if line[0] != '/' {
        CommandView::Send(IncomingView::Chat { text: line })
    } else {
        command_for(word, arg, token)
    }
}

/// What the line `input` asks for: it is trimmed; a command's word is
/// what stands before the first space, taken in lower case, and its
/// argument is the rest, trimmed.
pub open spec fn parsed(input: Seq<char>, token: Seq<char>) -> CommandView {
    let line = trimmed(input);
    line_means(
        line,
        lowercased(before_first(line, ' ')),
        trimmed(after_first(line, ' ')),
        token,
    )
}

/// Reads a line of input; see [`parsed`]. A ping without a token of its
/// own carries the text of a freshly drawn identity.
pub fn parse_command(input: &str) -> (r: Command)
    ensures
        exists|id: u128| r@ == parsed(input@, #[trigger] hyphenated(id)),
{
    let line = trim(input);
    if line.as_str().unicode_len() == 0 {
        assert(Command::Nothing@ == parsed(input@, hyphenated(0)));
        return Command::Nothing;
    }
    if line.as_str().get_char(0) != '/' {
        let r = Command::Send(Incoming::Chat { text: line });
        assert(r@ == parsed(input@, hyphenated(0)));
        return r;
    }
    let head = take_before(line.as_str(), ' ');
    let word = lowercase(head.as_str());
    let rest = take_after(line.as_str(), ' ');
    let arg = trim(rest.as_str());
    if str_eq(word.as_str(), "/ping") && arg.as_str().unicode_len() == 0 {
        let id = fresh_identity();
        let r = decide_command(word.as_str(), arg.as_str(), identity_text(id));
        assert(r@ == parsed(input@, hyphenated(id)));
        r
    } else {
        let r = decide_command(word.as_str(), arg.as_str(), String::new());
        assert(r@ == parsed(input@, hyphenated(0)));
        r
    }
}

} // verus!
