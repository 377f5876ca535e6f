//! The listing that the tool gives of its commands, read for the one line
//! that tells a client how each command is called.

use crate::json::{parse_json, parsed_json, Json, JsonView};
use crate::text::{join, joined, occurs_at, same_text, starts_with};
use vstd::prelude::*;

verus! {

/// The text under `key` in `value`, or `fallback` where `value` holds no
/// string there.
pub open spec fn text_or(value: JsonView, key: Seq<char>, fallback: Seq<char>) -> Seq<char> {
    match value.text_at(key) {
        Some(text) => text,
        None => fallback,
    }
}

/// Whether the argument `arg` of a command is marked as required.
pub open spec fn required(arg: JsonView) -> bool {
    arg.member("required"@) matches Some(mark) && mark.truth() == Some(true)
}

/// How the argument `arg` of a command is written in a call, regardless of
/// whether it may be left out: a flag as it is, a parameter with a value
/// behind its flag, and a positional argument by its name, unless it has a
/// flag with two dashes and is written as a parameter.
pub open spec fn usage_of(arg: JsonView) -> Seq<char> {
    let flag = text_or(arg, "flag"@, ""@);
    let kind = text_or(arg, "type"@, ""@);
    if kind == "parameter"@ {
        flag + " <value>"@
    } else if kind == "positional"@ {
        if occurs_at("--"@, flag, 0) {
            flag + " <value>"@
        } else {
            "<"@ + text_or(arg, "name"@, "arg"@) + ">"@
        }
    } else {
        flag
    }
}

/// How the argument `arg` of a command is shown: as it is written in a
/// call, in square brackets where it may be left out.
pub open spec fn shown_argument(arg: JsonView) -> Seq<char> {
    if required(arg) {
        usage_of(arg)
    } else {
        "["@ + usage_of(arg) + "]"@
    }
}

/// The arguments of the command `command`, each as it is shown.
pub open spec fn shown_arguments(command: JsonView) -> Seq<Seq<char>> {
    match command.member("arguments"@) {
        Some(JsonView::Array(args)) => Seq::new(args.len(), |i: int| shown_argument(args[i])),
        _ => Seq::empty(),
    }
}

/// The line that describes the command `command`: its path, its arguments,
/// and after a dash what it does.
pub open spec fn summary_of(command: JsonView) -> Seq<char> {
    let shown = shown_arguments(command);
    let arguments = if shown.len() > 0 {
        " "@ + joined(shown, " "@)
    } else {
        ""@
    };
    text_or(command, "path"@, ""@) + arguments + " - "@ + text_or(command, "description"@, ""@)
}

/// The lines that describe the commands of the listing `tree`, which are
/// the items under `commands`.  A listing of another shape has none.
pub open spec fn summaries_of(tree: JsonView) -> Seq<Seq<char>> {
    match tree.member("commands"@) {
        Some(JsonView::Array(commands)) => Seq::new(
            commands.len(),
            |i: int| summary_of(commands[i]),
        ),
        _ => Seq::empty(),
    }
}

/// The lines that describe the commands of the listing written in `text`.
/// A text that is no JSON has none.
pub open spec fn commands_in(text: Seq<char>) -> Seq<Seq<char>> {
    match parsed_json(text) {
        Some(tree) => summaries_of(tree),
        None => Seq::empty(),
    }
}

/// The text under `key` in `value`, or `fallback`.
fn text_under<'a>(value: &'a Json, key: &str, fallback: &'a str) -> (text: &'a str)
    ensures
        text@ == text_or(value@, key@, fallback@),
{
    match value.get(key) {
        Some(found) => match found.as_str() {
            Some(text) => text,
            None => fallback,
        },
        None => fallback,
    }
}

/// Tells whether the argument `arg` is marked as required.
fn is_required(arg: &Json) -> (b: bool)
    ensures
        b == required(arg@),
{
    match arg.get("required") {
        Some(mark) => match mark.as_bool() {
            Some(b) => b,
            None => false,
        },
        None => false,
    }
}

/// Writes the argument `arg` as it is shown.
fn show_argument(arg: &Json) -> (shown: String)
    ensures
        shown@ == shown_argument(arg@),
{
    let flag = text_under(arg, "flag", "");
    let kind = text_under(arg, "type", "");
    let usage = if same_text(kind, "parameter") {
        flag.to_owned().concat(" <value>")
    } else if same_text(kind, "positional") {
        if starts_with(flag, "--") {
            flag.to_owned().concat(" <value>")
        } else {
            "<".to_owned().concat(text_under(arg, "name", "arg")).concat(">")
        }
    } else {
        flag.to_owned()
    };
    if is_required(arg) {
        usage
    } else {
        "[".to_owned().concat(usage.as_str()).concat("]")
    }
}

/// Writes the arguments of the command `command`, each as it is shown.
fn show_arguments(command: &Json) -> (shown: Vec<String>)
    ensures
        shown.deep_view() == shown_arguments(command@),
{
    let mut shown: Vec<String> = Vec::new();
    match command.get("arguments") {
        Some(found) => match found.as_array() {
            Some(args) => {
                let mut i: usize = 0;
                while i < args.len()
                    invariant
                        i <= args.len(),
                        shown.len() == i,
                        forall|k: int|
                            0 <= k < i ==> (#[trigger] shown@[k])@ == shown_argument(args@[k]@),
                    decreases args.len() - i,
                {
                    shown.push(show_argument(&args[i]));
                    i += 1;
                }
            },
            None => {},
        },
        None => {},
    }
    shown
}

/// Writes the line that describes the command `command`.
fn summarize(command: &Json) -> (line: String)
    ensures
        line@ == summary_of(command@),
{
    let shown = show_arguments(command);
    let arguments = if shown.len() > 0 {
        " ".to_owned().concat(join(&shown, " ").as_str())
    } else {
        "".to_owned()
    };
    text_under(command, "path", "").to_owned().concat(arguments.as_str()).concat(" - ").concat(
        text_under(command, "description", ""),
    )
}

/// Writes the lines that describe the commands of the listing `tree`, one
/// for each item under `commands`.
pub fn describe_commands(tree: &Json) -> (lines: Vec<String>)
    ensures
        lines.deep_view() == summaries_of(tree@),
{
    let mut lines: Vec<String> = Vec::new();
    match tree.get("commands") {
        Some(found) => match found.as_array() {
            Some(commands) => {
                let mut i: usize = 0;
                while i < commands.len()
                    invariant
                        i <= commands.len(),
                        lines.len() == i,
                        forall|k: int|
                            0 <= k < i ==> (#[trigger] lines@[k])@ == summary_of(commands@[k]@),
                    decreases commands.len() - i,
                {
                    lines.push(summarize(&commands[i]));
                    i += 1;
                }
            },
            None => {},
        },
        None => {},
    }
    lines
}

/// Writes the lines that describe the commands of the listing written in
/// `text`, as the tool prints it in JSON.  Gives no line where `text` is no
/// JSON.
pub fn available_commands(text: &str) -> (lines: Vec<String>)
    ensures
        lines.deep_view() == commands_in(text@),
{
    match parse_json(text) {
        Some(tree) => describe_commands(&tree),
        None => Vec::new(),
    }
}

} // verus!
