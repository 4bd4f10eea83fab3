//! The decisions of the command line that do not depend on its parser: the
//! log file option, the deprecated alias, and the interactive prompt.
use vstd::prelude::*;
use vstd::string::{StringExecFns, StrSliceExecFns};
use crate::text::{equals, starts_with, trim, trimmed};
use crate::execution_error::strings_view;

verus! {

/// What to do with the command line.
#[derive(Clone, Copy, Debug, PartialEq, Eq, Structural)]
pub enum ArgsAction {
    /// The first argument is the deprecated `rt` command: report and exit.
    DeprecatedRt,
    /// No arguments: show the interactive prompt.
    Interactive,
    /// Parse the arguments.
    Parse,
}

pub open spec fn spec_args_action(args: Seq<Seq<char>>) -> ArgsAction {
    if args.len() > 1 && args[1] == "rt"@ {
        ArgsAction::DeprecatedRt
    } else if args.len() <= 1 {
        ArgsAction::Interactive
    } else {
        ArgsAction::Parse
    }
}

/// Decides from the arguments (the program name first) what to do.
pub fn args_action(args: &Vec<String>) -> (a: ArgsAction)
    ensures
        a == spec_args_action(strings_view(args@)),
{
    if args.len() > 1 && equals(args[1].as_str(), "rt") {
        ArgsAction::DeprecatedRt
    } else if args.len() <= 1 {
        ArgsAction::Interactive
    } else {
        ArgsAction::Parse
    }
}

pub open spec fn log_file_flag() -> Seq<char> {
    seq!['-', '-', 'l', 'o', 'g', '-', 'f', 'i', 'l', 'e']
}

pub open spec fn log_file_prefix() -> Seq<char> {
    seq!['-', '-', 'l', 'o', 'g', '-', 'f', 'i', 'l', 'e', '=']
}

/// The log file named in the options before the command, from argument `i`
/// on: `--log-file PATH` or `--log-file=PATH`; the search stops at the first
/// argument that does not start with `-`.
pub open spec fn spec_log_file(args: Seq<Seq<char>>, i: int) -> Option<Seq<char>>
    decreases args.len() - i,
{
    if i < 0 || i >= args.len() {
        None
    } else if args[i] == log_file_flag() && i + 1 < args.len() {
        Some(args[i + 1])
    } else if log_file_prefix().len() <= args[i].len() && args[i].take(11) == log_file_prefix() {
        Some(args[i].skip(11))
    } else if !(args[i].len() >= 1 && args[i][0] == '-') {
        None
    } else {
        spec_log_file(args, i + 1)
    }
}

/// The log file named on the command line (the program name first), if any.
pub fn get_log_file(args: &Vec<String>) -> (r: Option<String>)
    ensures
        match (r, spec_log_file(strings_view(args@), 1)) {
            (Some(s), Some(t)) => s@ == t,
            (None, None) => true,
            _ => false,
        },
{
    proof {
        reveal_strlit("--log-file");
        reveal_strlit("--log-file=");
        reveal_strlit("-");
        assert("--log-file"@ =~= log_file_flag());
        assert("--log-file="@ =~= log_file_prefix());
    }
    let ghost all = strings_view(args@);
    let mut i: usize = 1;
    while i < args.len()
        invariant
            1 <= i,
            all == strings_view(args@),
            "--log-file"@ == log_file_flag(),
            "--log-file="@ == log_file_prefix(),
            "-"@ == seq!['-'],
            spec_log_file(all, 1) == spec_log_file(all, i as int),
        decreases args@.len() - i,
    {
        let arg = args[i].as_str();
        assert(all[i as int] == arg@);
        if equals(arg, "--log-file") && i + 1 < args.len() {
            return Some(String::from_str(args[i + 1].as_str()));
        }
        if starts_with(arg, "--log-file=") {
            let n = arg.unicode_len();
            let rest = arg.substring_char(11, n);
            proof { assert(rest@ =~= all[i as int].skip(11)); }
            return Some(String::from_str(rest));
        }
        if !starts_with(arg, "-") {
            proof {
                assert(("-"@.len() <= arg@.len() && arg@.take(1) == "-"@) == (arg@.len() >= 1
                    && arg@[0] == '-')) by {
                    if arg@.len() >= 1 {
                        assert(arg@.take(1) =~= seq![arg@[0]]);
                    }
                }
            }
            return None;
        }
        proof {
            assert("-"@.len() == 1);
            assert(arg@.len() >= 1);
            assert(arg@.take(1) =~= seq![arg@[0]]);
            assert(arg@.take(1) == "-"@);
            assert(arg@.take(1)[0] == arg@[0]);
            assert("-"@[0] == '-');
            assert(arg@[0] == '-');
            assert(!(all[i as int] == log_file_flag() && i + 1 < all.len()));
            assert(!(log_file_prefix().len() <= all[i as int].len() && all[i as int].take(11) == log_file_prefix()));
            assert(spec_log_file(all, i as int) == spec_log_file(all, i + 1));
        }
        i = i + 1;
    }
    None
}

/// A choice at the interactive prompt.
#[derive(Clone, Copy, Debug, PartialEq, Eq, Structural)]
pub enum PromptChoice {
    Exit,
    Help,
    Autorun,
    Invalid,
}

pub open spec fn spec_prompt_choice(input: Seq<char>) -> PromptChoice {
    let t = trimmed(input);
    if t == ""@ || t == "1"@ {
        PromptChoice::Exit
    } else if t == "2"@ {
        PromptChoice::Help
    } else if t == "3"@ {
        PromptChoice::Autorun
    } else {
        PromptChoice::Invalid
    }
}

/// The choice that a line typed at the prompt makes: empty or `1` exits,
/// `2` shows the help, `3` runs with the recommended settings.
pub fn prompt_choice(input: &str) -> (c: PromptChoice)
    ensures
        c == spec_prompt_choice(input@),
{
    let t = trim(input);
    if equals(t, "") || equals(t, "1") {
        PromptChoice::Exit
    } else if equals(t, "2") {
        PromptChoice::Help
    } else if equals(t, "3") {
        PromptChoice::Autorun
    } else {
        PromptChoice::Invalid
    }
}

} // verus!
