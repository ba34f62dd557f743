//! Routing of a command line: the first argument picks a management
//! action, and any other token is taken as an alias name to run.

use vstd::prelude::*;
use vstd::string::StringExecFns;

verus! {

/// What one invocation asks for, with the values it carries.
pub enum Action {
    /// Print the help text: no arguments, or the word `help`.
    Help,
    /// List every alias.
    List,
    /// Delete every alias.
    RemoveAll,
    /// `add` without a name: print a usage hint, touch nothing.
    AddMissingName,
    /// `add` with a name but no command: print a usage hint, touch nothing.
    AddMissingCommand,
    /// `rm` without a name: print a usage hint, touch nothing.
    RemoveMissingName,
    /// Insert a new alias; the command is the remaining arguments
    /// joined by single spaces.
    Add { name: String, command: String },
    /// Delete one alias by name.
    Remove { name: String },
    /// Run the command stored under this name.
    Invoke { name: String },
}

/// An action as it appears in specifications.
pub enum ActionView {
    Help,
    List,
    RemoveAll,
    AddMissingName,
    AddMissingCommand,
    RemoveMissingName,
    Add { name: Seq<char>, command: Seq<char> },
    Remove { name: Seq<char> },
    Invoke { name: Seq<char> },
}

impl View for Action {
    type V = ActionView;

    open spec fn view(&self) -> ActionView {
        match self {
            Action::Help => ActionView::Help,
            Action::List => ActionView::List,
            Action::RemoveAll => ActionView::RemoveAll,
            Action::AddMissingName => ActionView::AddMissingName,
            Action::AddMissingCommand => ActionView::AddMissingCommand,
            Action::RemoveMissingName => ActionView::RemoveMissingName,
            Action::Add { name, command } => ActionView::Add {
                name: name@,
                command: command@,
            },
            Action::Remove { name } => ActionView::Remove { name: name@ },
            Action::Invoke { name } => ActionView::Invoke { name: name@ },
        }
    }
}

/// The arguments of an invocation as they appear in specifications.
pub open spec fn argv_view(args: Seq<String>) -> Seq<Seq<char>> {
    args.map_values(|s: String| s@)
}

/// The parts joined by single spaces.
pub open spec fn joined(parts: Seq<Seq<char>>) -> Seq<char>
    decreases parts.len(),
{
    if parts.len() == 0 {
        Seq::empty()
    } else if parts.len() == 1 {
        parts[0]
    } else {
        joined(parts.drop_last()) + " "@ + parts.last()
    }
}

/// The decision table on an argument list: the element at index 0 is
/// the program path and is ignored; the element at index 1 picks the
/// action.
pub open spec fn dispatch_of(argv: Seq<Seq<char>>) -> ActionView {
    if argv.len() <= 1 {
        ActionView::Help
    } else if argv[1] == "help"@ {
        ActionView::Help
    } else if argv[1] == "ls"@ {
        ActionView::List
    } else if argv[1] == "rma"@ {
        ActionView::RemoveAll
    } else if argv[1] == "add"@ {
        if argv.len() == 2 {
            ActionView::AddMissingName
        } else if argv.len() == 3 {
            ActionView::AddMissingCommand
        } else {
            ActionView::Add {
                name: argv[2],
                command: joined(argv.subrange(3, argv.len() as int)),
            }
        }
    } else if argv[1] == "rm"@ {
        if argv.len() == 2 {
            ActionView::RemoveMissingName
        } else {
            ActionView::Remove { name: argv[2] }
        }
    } else {
        ActionView::Invoke { name: argv[1] }
    }
}

/// Relies on `==` of `str`: it holds exactly when the two character
/// sequences are equal.
#[verifier::external_body]
fn str_eq(a: &str, b: &str) -> (r: bool)
    ensures
        r == (a@ == b@),
{
    a == b
}

/// The arguments from `start` on, joined by single spaces.
fn join_args(args: &Vec<String>, start: usize) -> (r: String)
    requires
        start < args@.len(),
    ensures
        r@ == joined(argv_view(args@).subrange(start as int, args@.len() as int)),
{
    let ghost argv = argv_view(args@);
    let n = args.len();
    let mut r = args[start].clone();
    let mut i: usize = start + 1;
    proof {
        assert(argv.subrange(start as int, start + 1) =~= seq![argv[start as int]]);
    }
    while i < n
        invariant
            start < i <= n,
            n == args@.len(),
            argv == argv_view(args@),
            r@ == joined(argv.subrange(start as int, i as int)),
        decreases n - i,
    {
        r.append(" ");
        r.append(args[i].as_str());
        proof {
            let prev = argv.subrange(start as int, i as int);
            let cur = argv.subrange(start as int, i + 1);
            assert(cur.drop_last() =~= prev);
            assert(cur.last() == argv[i as int]);
        }
        i += 1;
    }
    r
}

/// The action asked for by this argument list.
pub fn dispatch(args: &Vec<String>) -> (a: Action)
    ensures
        a@ == dispatch_of(argv_view(args@)),
{
    let ghost argv = argv_view(args@);
    if args.len() <= 1 {
        return Action::Help;
    }
    let first = &args[1];
    proof {
        assert(argv[1] == first@);
    }
    if str_eq(first.as_str(), "help") {
        Action::Help
    } else if str_eq(first.as_str(), "ls") {
        Action::List
    } else if str_eq(first.as_str(), "rma") {
        Action::RemoveAll
    } else if str_eq(first.as_str(), "add") {
        if args.len() == 2 {
            Action::AddMissingName
        } else if args.len() == 3 {
            Action::AddMissingCommand
        } else {
            let name = args[2].clone();
            let command = join_args(args, 3);
            proof {
                assert(argv[2] == args@[2]@);
            }
            Action::Add { name, command }
        }
    } else if str_eq(first.as_str(), "rm") {
        if args.len() == 2 {
            Action::RemoveMissingName
        } else {
            proof {
                assert(argv[2] == args@[2]@);
            }
            Action::Remove { name: args[2].clone() }
        }
    } else {
        Action::Invoke { name: first.clone() }
    }
}

} // verus!
