//! The command line, and what is said about it.
use crate::text::texts;
use vstd::prelude::*;

verus! {

/// What the command line asks for.
#[derive(Debug)]
pub enum Command {
    /// Show the windows.
    List,
    /// Capture the window that `selector` picks into the file `out_path`.
    Grab { selector: String, out_path: String },
}

/// The texts of a [`Command`].
pub enum CommandView {
    List,
    Grab { selector: Seq<char>, out_path: Seq<char> },
}

impl View for Command {
    type V = CommandView;

    open spec fn view(&self) -> CommandView {
        match *self {
            Command::List => CommandView::List,
            Command::Grab { selector, out_path } => CommandView::Grab {
                selector: selector@,
                out_path: out_path@,
            },
        }
    }
}

/// How to use the program: all of it, or the capture.
#[derive(Clone, Copy, Debug, PartialEq, Eq, Structural)]
pub enum Usage {
    All,
    Grab,
}

impl Usage {
    /// The hint as text.
    pub open spec fn text(self) -> Seq<char> {
        match self {
            Usage::All => "usage: MinkaCap list | grab <selector> <out.png>"@,
            Usage::Grab => "usage: MinkaCap grab <selector> <out.png>"@,
        }
    }

    /// The hint as text.
    pub fn message(self) -> (text: String)
        ensures
            text@ == self.text(),
            self == Usage::All ==> text@ == "usage: MinkaCap list | grab <selector> <out.png>"@,
            self == Usage::Grab ==> text@ == "usage: MinkaCap grab <selector> <out.png>"@,
    {
        match self {
            Usage::All => "usage: MinkaCap list | grab <selector> <out.png>".to_string(),
            Usage::Grab => "usage: MinkaCap grab <selector> <out.png>".to_string(),
        }
    }
}

/// What a command line asks for. The first argument is the program, the second the mode; what
/// follows the arguments of the mode is not looked at.
pub open spec fn command_of(args: Seq<Seq<char>>) -> Result<CommandView, Usage> {
    if args.len() > 1 && args[1] == "list"@ {
        Ok(CommandView::List)
    } else if args.len() > 1 && args[1] == "grab"@ {
        if args.len() > 3 {
            Ok(CommandView::Grab { selector: args[2], out_path: args[3] })
        } else {
            Err(Usage::Grab)
        }
    } else {
        Err(Usage::All)
    }
}

/// What a command line asks for.
pub fn parse_command(args: &Vec<String>) -> (command: Result<Command, Usage>)
    ensures
        (match command {
            Ok(c) => Ok(c@),
            Err(usage) => Err::<CommandView, Usage>(usage),
        }) == command_of(texts(args@)),
        command matches Ok(Command::List) ==> args@.len() > 1 && args@[1]@ == "list"@,
        command matches Ok(Command::Grab { selector, out_path }) ==> args@.len() > 3 && args@[1]@
            == "grab"@ && selector@ == args@[2]@ && out_path@ == args@[3]@,
        command is Ok <==> args@.len() > 1 && (args@[1]@ == "list"@ || (args@[1]@ == "grab"@
            && args@.len() > 3)),
        command matches Err(usage) ==> (usage == Usage::Grab <==> args@.len() > 1 && args@[1]@
            == "grab"@),
{
    proof {
        law_modes(texts(args@));
    }
    if args.len() < 2 {
        return Err(Usage::All);
    }
    if args[1] == "list".to_string() {
        Ok(Command::List)
    } else if args[1] == "grab".to_string() {
        if args.len() < 4 {
            return Err(Usage::Grab);
        }
        Ok(Command::Grab { selector: args[2].clone(), out_path: args[3].clone() })
    } else {
        Err(Usage::All)
    }
}

/// A message under the program's name.
pub open spec fn named(message: Seq<char>) -> Seq<char> {
    "MinkaCap: "@ + message
}

/// A message under the program's name, as it goes to standard error.
pub fn stderr_line(message: &String) -> (line: String)
    ensures
        line@ == named(message@),
        line@ == "MinkaCap: "@ + message@,
{
    let mut line = "MinkaCap: ".to_string();
    line.append(message.as_str());
    line
}

/// The two modes exclude each other: each outcome of the command line has its own condition, and
/// the order in which the modes are looked at does not matter.
pub proof fn law_modes(args: Seq<Seq<char>>)
    ensures
        command_of(args) == Ok::<CommandView, Usage>(CommandView::List) <==> args.len() > 1
            && args[1] == "list"@,
        command_of(args) matches Ok(CommandView::Grab { .. }) <==> args.len() > 3 && args[1]
            == "grab"@,
        command_of(args) == Err::<CommandView, Usage>(Usage::Grab) <==> 1 < args.len() <= 3
            && args[1] == "grab"@,
        command_of(args) == Err::<CommandView, Usage>(Usage::All) <==> args.len() <= 1 || (args[1]
            != "list"@ && args[1] != "grab"@),
{
    reveal_strlit("list");
    reveal_strlit("grab");
    assert("list"@[0] != "grab"@[0]);
}

/// A capture is asked for with the two arguments that follow the mode, as they are: the selector
/// first, then the file.
pub proof fn law_grab_arguments(args: Seq<Seq<char>>)
    requires
        args.len() > 3,
        args[1] == "grab"@,
    ensures
        command_of(args) == Ok::<CommandView, Usage>(
            CommandView::Grab { selector: args[2], out_path: args[3] },
        ),
{
    law_modes(args);
}

/// The view of a command holds its texts, each in its place.
pub proof fn law_command_view(selector: String, out_path: String)
    ensures
        Command::List@ == CommandView::List,
        (Command::Grab { selector, out_path })@ == (CommandView::Grab {
            selector: selector@,
            out_path: out_path@,
        }),
{
}

/// The hints name the program and its modes.
pub proof fn law_usage_texts(usage: Usage)
    ensures
        usage == Usage::All ==> usage.text() == "usage: MinkaCap list | grab <selector> <out.png>"@,
        usage == Usage::Grab ==> usage.text() == "usage: MinkaCap grab <selector> <out.png>"@,
{
}

/// A message can be read back from its line: the program's name stands before it, and nothing
/// after it.
pub proof fn law_named_message(message: Seq<char>)
    ensures
        named(message).len() == 10 + message.len(),
        named(message).take(10) == "MinkaCap: "@,
        named(message).skip(10) == message,
{
    reveal_strlit("MinkaCap: ");
    assert(named(message).take(10) =~= "MinkaCap: "@);
    assert(named(message).skip(10) =~= message);
}

} // verus!
