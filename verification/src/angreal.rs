//! The automation tool seen from outside: which commands may reach it, the
//! argument vector they are turned into, and what a finished run amounts to.

use crate::text::{
    blank, chars_of, contains, decimal, is_blank, join, joined, lemma_word_len, occurs_at,
    occurs_in, same_text, split_whitespace, to_decimal, trim, trimmed, whitespace, word_len, words,
};
use vstd::prelude::*;

verus! {

/// The longest argument, in characters, that is handed to the tool.
pub const MAX_ARGUMENT_LEN: usize = 1000;

/// Why a call of the tool was refused or failed.
#[derive(Debug, PartialEq, Eq)]
pub enum AngrealError {
    /// The tool is not installed.
    NotInstalled,
    /// The working directory is no project of the tool.
    NotInProject,
    /// The tool ran and failed; holds what it printed.
    ExecutionFailed(String),
    /// A word of the command holds a character that is not allowed.
    InvalidCommand(String),
    /// A word of the command holds a mark of shell injection.
    InjectionAttempt(String),
    /// An argument is longer than `MAX_ARGUMENT_LEN`; holds its length.
    ArgumentTooLong(usize),
    /// The listing format is neither `json` nor `human`.
    InvalidFormat(String),
}

/// An `AngrealError` with its texts as sequences of characters.
pub enum ErrorView {
    NotInstalled,
    NotInProject,
    ExecutionFailed(Seq<char>),
    InvalidCommand(Seq<char>),
    InjectionAttempt(Seq<char>),
    ArgumentTooLong(nat),
    InvalidFormat(Seq<char>),
}

impl View for AngrealError {
    type V = ErrorView;

    open spec fn view(&self) -> ErrorView {
        match self {
            AngrealError::NotInstalled => ErrorView::NotInstalled,
            AngrealError::NotInProject => ErrorView::NotInProject,
            AngrealError::ExecutionFailed(output) => ErrorView::ExecutionFailed(output@),
            AngrealError::InvalidCommand(word) => ErrorView::InvalidCommand(word@),
            AngrealError::InjectionAttempt(word) => ErrorView::InjectionAttempt(word@),
            AngrealError::ArgumentTooLong(len) => ErrorView::ArgumentTooLong(*len as nat),
            AngrealError::InvalidFormat(format) => ErrorView::InvalidFormat(format@),
        }
    }
}

impl ErrorView {
    /// The sentence that tells a client of this error.
    pub open spec fn message(self) -> Seq<char> {
        match self {
            ErrorView::NotInstalled =>
                "The 'angreal' command is not available. Please install angreal first."@,
            ErrorView::NotInProject =>
                "Not in an angreal project. Please run this command from within an angreal project directory."@,
            ErrorView::ExecutionFailed(output) => "Angreal execution failed: "@ + output,
            ErrorView::InvalidCommand(word) => "Invalid command component '"@ + word
                + "': contains disallowed characters"@,
            ErrorView::InjectionAttempt(word) => "Command injection attempt detected in '"@ + word
                + "'"@,
            ErrorView::ArgumentTooLong(len) => "Argument too long: "@ + decimal(len),
            ErrorView::InvalidFormat(format) => "Invalid format '"@ + format
                + "'. Must be 'json' or 'human'"@,
        }
    }
}

impl AngrealError {
    /// The sentence that tells a client of this error.
    pub fn message(&self) -> (text: String)
        ensures
            text@ == self@.message(),
    {
        match self {
            AngrealError::NotInstalled =>
                "The 'angreal' command is not available. Please install angreal first.".to_owned(),
            AngrealError::NotInProject =>
                "Not in an angreal project. Please run this command from within an angreal project directory.".to_owned(),
            AngrealError::ExecutionFailed(output) => {
                "Angreal execution failed: ".to_owned().concat(output.as_str())
            },
            AngrealError::InvalidCommand(word) => {
                "Invalid command component '".to_owned().concat(word.as_str()).concat(
                    "': contains disallowed characters",
                )
            },
            AngrealError::InjectionAttempt(word) => {
                "Command injection attempt detected in '".to_owned().concat(word.as_str()).concat(
                    "'",
                )
            },
            AngrealError::ArgumentTooLong(len) => {
                "Argument too long: ".to_owned().concat(to_decimal(*len).as_str())
            },
            AngrealError::InvalidFormat(format) => {
                "Invalid format '".to_owned().concat(format.as_str()).concat(
                    "'. Must be 'json' or 'human'",
                )
            },
        }
    }
}

/// Whether `c` may stand in a word of a command: an ASCII letter or digit,
/// or one of `-`, `_`, `.` and `/`.
pub open spec fn allowed(c: char) -> bool {
    ||| 'a' <= c <= 'z'
    ||| 'A' <= c <= 'Z'
    ||| '0' <= c <= '9'
    ||| c == '-'
    ||| c == '_'
    ||| c == '.'
    ||| c == '/'
}

/// Whether every character of `word` is allowed.
pub open spec fn plain(word: Seq<char>) -> bool {
    forall|i: int| 0 <= i < word.len() ==> allowed(#[trigger] word[i])
}

/// Whether `word` holds one of the marks `&&`, `||`, `;` and `|`.
pub open spec fn marked(word: Seq<char>) -> bool {
    ||| occurs_in("&&"@, word)
    ||| occurs_in("||"@, word)
    ||| occurs_in(";"@, word)
    ||| occurs_in("|"@, word)
}

/// Why `word` may not stand in a command, if it may not.
pub open spec fn word_rejection(word: Seq<char>) -> Option<ErrorView> {
    if !plain(word) {
        Some(ErrorView::InvalidCommand(word))
    } else if marked(word) {
        Some(ErrorView::InjectionAttempt(word))
    } else {
        None
    }
}

/// The rejection of the first of `words` that is rejected.
pub open spec fn first_rejection(words: Seq<Seq<char>>) -> Option<ErrorView>
    decreases words.len(),
{
    if words.len() == 0 {
        None
    } else if word_rejection(words[0]) is Some {
        word_rejection(words[0])
    } else {
        first_rejection(words.drop_first())
    }
}

/// Why `command` is refused, if it is.
pub open spec fn command_rejection(command: Seq<char>) -> Option<ErrorView> {
    first_rejection(words(command))
}

/// Tells whether `c` may stand in a word of a command.
pub fn is_allowed(c: char) -> (b: bool)
    ensures
        b == allowed(c),
{
    ('a' <= c && c <= 'z') || ('A' <= c && c <= 'Z') || ('0' <= c && c <= '9') || c == '-' || c
        == '_' || c == '.' || c == '/'
}

/// Tells whether every character of `word` is allowed.
pub fn is_plain(word: &str) -> (b: bool)
    ensures
        b == plain(word@),
{
    let chars = chars_of(word);
    let mut i: usize = 0;
    while i < chars.len()
        invariant
            i <= chars.len(),
            chars@ == word@,
            forall|k: int| 0 <= k < i ==> allowed(#[trigger] chars@[k]),
        decreases chars.len() - i,
    {
        if !is_allowed(chars[i]) {
            return false;
        }
        i += 1;
    }
    true
}

/// Tells whether `word` holds a mark of shell injection.
pub fn is_marked(word: &str) -> (b: bool)
    ensures
        b == marked(word@),
{
    contains(word, "&&") || contains(word, "||") || contains(word, ";") || contains(word, "|")
}

/// Checks that `command` may reach the tool: each of its words is made of
/// allowed characters and holds no mark of shell injection.  The error names
/// the first word that is refused.
pub fn validate_angreal_command(command: &str) -> (r: Result<(), AngrealError>)
    ensures
        match r {
            Ok(_) => command_rejection(command@) is None,
            Err(e) => command_rejection(command@) == Some(e@),
        },
{
    let parts = split_whitespace(command);
    let mut i: usize = 0;
    assert(parts.deep_view().skip(0) =~= parts.deep_view());
    while i < parts.len()
        invariant
            i <= parts.len(),
            parts.deep_view() == words(command@),
            command_rejection(command@) == first_rejection(parts.deep_view().skip(i as int)),
        decreases parts.len() - i,
    {
        let part = &parts[i];
        if !is_plain(part.as_str()) {
            return Err(AngrealError::InvalidCommand(part.clone()));
        }
        if is_marked(part.as_str()) {
            return Err(AngrealError::InjectionAttempt(part.clone()));
        }
        assert(parts.deep_view().skip(i as int).drop_first() =~= parts.deep_view().skip(i + 1));
        i += 1;
    }
    Ok(())
}

/// Whether every character of `command` is white space or allowed.
pub open spec fn acceptable(command: Seq<char>) -> bool {
    forall|i: int|
        0 <= i < command.len() ==> whitespace(#[trigger] command[i]) || allowed(command[i])
}

/// A word of allowed characters holds no mark of shell injection: the two
/// checks on a word never disagree.
pub proof fn lemma_plain_never_marked(word: Seq<char>)
    requires
        plain(word),
    ensures
        !marked(word),
{
    reveal_strlit("&&");
    reveal_strlit("||");
    reveal_strlit(";");
    reveal_strlit("|");
    assert forall|mark: Seq<char>, i: int|
        mark.len() > 0 && !allowed(mark[0]) implies !occurs_at(mark, word, i) by {
        if occurs_at(mark, word, i) {
            assert(word.subrange(i, i + mark.len())[0] == word[i]);
        }
    }
}

/// Words are refused one by one: none of `words` is rejected exactly when
/// each of them is made of allowed characters.
proof fn lemma_first_rejection(words: Seq<Seq<char>>)
    ensures
        first_rejection(words) is None <==> all_plain(words),
    decreases words.len(),
{
    if words.len() > 0 {
        let rest = words.drop_first();
        lemma_first_rejection(rest);
        if plain(words[0]) {
            lemma_plain_never_marked(words[0]);
        }
        if first_rejection(words) is None {
            assert forall|w: int| 0 <= w < words.len() implies plain(#[trigger] words[w]) by {
                if w > 0 {
                    assert(words[w] == rest[w - 1]);
                }
            }
        }
    }
}

/// Whether each of `words` is made of allowed characters.
pub open spec fn all_plain(words: Seq<Seq<char>>) -> bool {
    forall|w: int| 0 <= w < words.len() ==> plain(#[trigger] words[w])
}

/// The words of `s` are made of allowed characters exactly when every
/// character of `s` is white space or allowed.
proof fn lemma_words_plain(s: Seq<char>)
    ensures
        all_plain(words(s)) <==> acceptable(s),
    decreases s.len(),
{
    if s.len() == 0 {
        // Neither side has anything to say of an empty text.
    } else if whitespace(s[0]) {
        let rest = s.drop_first();
        lemma_words_plain(rest);
        if acceptable(rest) {
            assert forall|i: int| 0 <= i < s.len() implies whitespace(#[trigger] s[i]) || allowed(
                s[i],
            ) by {
                if i > 0 {
                    assert(s[i] == rest[i - 1]);
                }
            }
        }
    } else {
        let n = word_len(s) as int;
        lemma_word_len(s);
        let first = s.take(n);
        let rest = s.skip(n);
        lemma_words_plain(rest);
        if all_plain(words(s)) {
            assert(words(s)[0] == first);
            assert forall|w: int| 0 <= w < words(rest).len() implies plain(
                #[trigger] words(rest)[w],
            ) by {
                assert(words(rest)[w] == words(s)[w + 1]);
            }
            assert forall|i: int| 0 <= i < s.len() implies whitespace(#[trigger] s[i]) || allowed(
                s[i],
            ) by {
                if i < n {
                    assert(s[i] == first[i]);
                } else {
                    assert(s[i] == rest[i - n]);
                }
            }
        }
    }
}

/// A command is let through exactly when each of its characters is white
/// space or allowed.  So a command that holds `&`, `;`, `|` or any other
/// character outside `[A-Za-z0-9._/-]`, white space apart, is always refused.
pub proof fn lemma_accepted_commands(command: Seq<char>)
    ensures
        command_rejection(command) is None <==> acceptable(command),
        command.contains('&') || command.contains(';') || command.contains('|')
            ==> command_rejection(command) is Some,
{
    lemma_first_rejection(words(command));
    lemma_words_plain(command);
}

/// The argument vector of a call: the words of `command`, then `args`, each
/// of them whole.
pub open spec fn argument_vector(command: Seq<char>, args: Seq<Seq<char>>) -> Seq<Seq<char>> {
    words(command) + args
}

/// Why `argv` is refused for the length of an argument, if it is: the error
/// holds the length of the first argument that is too long.
pub open spec fn length_rejection(argv: Seq<Seq<char>>) -> Option<ErrorView>
    decreases argv.len(),
{
    if argv.len() == 0 {
        None
    } else if argv[0].len() > MAX_ARGUMENT_LEN {
        Some(ErrorView::ArgumentTooLong(argv[0].len()))
    } else {
        length_rejection(argv.drop_first())
    }
}

/// An argument vector is let through exactly when none of its arguments is
/// longer than `MAX_ARGUMENT_LEN`.
pub proof fn lemma_length_rejection(argv: Seq<Seq<char>>)
    ensures
        length_rejection(argv) is None <==> forall|i: int|
            0 <= i < argv.len() ==> (#[trigger] argv[i]).len() <= MAX_ARGUMENT_LEN,
    decreases argv.len(),
{
    if argv.len() > 0 {
        let rest = argv.drop_first();
        lemma_length_rejection(rest);
        if length_rejection(argv) is None {
            assert forall|i: int| 0 <= i < argv.len() implies (#[trigger] argv[i]).len()
                <= MAX_ARGUMENT_LEN by {
                if i > 0 {
                    assert(argv[i] == rest[i - 1]);
                }
            }
        }
    }
}

/// Lays out the argument vector of a call: the words of `command`, then
/// `args`, none of them split.  Fails where an argument is longer than
/// `MAX_ARGUMENT_LEN` characters.
pub fn parse_command_and_args(
    command: &str,
    args: &[String],
) -> (r: Result<Vec<String>, AngrealError>)
    ensures
        match r {
            Ok(argv) => {
                &&& argv.deep_view() == argument_vector(command@, args.deep_view())
                &&& length_rejection(argv.deep_view()) is None
                &&& forall|i: int|
                    0 <= i < argv.len() ==> (#[trigger] argv[i])@.len() <= MAX_ARGUMENT_LEN
            },
            Err(e) => length_rejection(argument_vector(command@, args.deep_view())) == Some(e@),
        },
{
    let mut all = split_whitespace(command);
    let mut i: usize = 0;
    while i < args.len()
        invariant
            i <= args.len(),
            all.deep_view() == words(command@) + args.deep_view().take(i as int),
        decreases args.len() - i,
    {
        let ghost before = all.deep_view();
        all.push(args[i].clone());
        assert(before.push(args[i as int]@) =~= words(command@) + args.deep_view().take(i + 1));
        i += 1;
    }
    let mut k: usize = 0;
    assert(all.deep_view().skip(0) =~= all.deep_view());
    while k < all.len()
        invariant
            k <= all.len(),
            all.deep_view() == argument_vector(command@, args.deep_view()),
            length_rejection(all.deep_view()) == length_rejection(all.deep_view().skip(k as int)),
        decreases all.len() - k,
    {
        let len = all[k].as_str().unicode_len();
        if len > MAX_ARGUMENT_LEN {
            return Err(AngrealError::ArgumentTooLong(len));
        }
        assert(all.deep_view().skip(k as int).drop_first() =~= all.deep_view().skip(k + 1));
        k += 1;
    }
    proof {
        lemma_length_rejection(all.deep_view());
        assert forall|i: int| 0 <= i < all.len() implies (#[trigger] all[i])@.len()
            <= MAX_ARGUMENT_LEN by {
            assert(all.deep_view()[i] == all[i]@);
        }
    }
    Ok(all)
}

/// Whether `format` names a format of the listing.
pub open spec fn known_format(format: Seq<char>) -> bool {
    format == "json"@ || format == "human"@
}

/// Checks that `format` is `json` or `human`.
pub fn validate_format(format: &str) -> (r: Result<(), AngrealError>)
    ensures
        match r {
            Ok(_) => known_format(format@),
            Err(e) => !known_format(format@) && e@ == ErrorView::InvalidFormat(format@),
        },
{
    if same_text(format, "json") || same_text(format, "human") {
        Ok(())
    } else {
        Err(AngrealError::InvalidFormat(format.to_owned()))
    }
}

/// How an attempt to run the tool ended.
#[derive(Debug, PartialEq, Eq)]
pub enum ProcessOutcome {
    /// No process was started.  `not_found` tells that no executable of the
    /// tool's name was found; `reason` is what the system said.
    LaunchFailed { not_found: bool, reason: String },
    /// The process ran to its end.  `code` is its exit code, if it has one.
    Exited { code: Option<i32>, stdout: String, stderr: String },
}

/// Whether `outcome` is a run that ended with exit code 0.
pub open spec fn succeeded(outcome: ProcessOutcome) -> bool {
    outcome matches ProcessOutcome::Exited { code, .. } && code == Some(0i32)
}

/// Whether `stderr` says that the working directory is no project of the tool.
pub open spec fn reports_no_project(stderr: Seq<char>) -> bool {
    occurs_in("No angreal.toml"@, stderr) || occurs_in("not an angreal project"@, stderr)
}

/// What a run of the tool amounts to.  After exit code 0 it is what the tool
/// wrote to standard output, followed under a heading by what it wrote to
/// standard error, unless that is empty.  Any other end is an error: the tool
/// is not installed, the directory is no project, or the run failed.  A run
/// that failed carries what the tool wrote to both, each under a heading,
/// and standard error alone where standard output is empty.
pub open spec fn run_result(outcome: ProcessOutcome) -> Result<Seq<char>, ErrorView> {
    match outcome {
        ProcessOutcome::LaunchFailed { not_found, reason } => if not_found {
            Err(ErrorView::NotInstalled)
        } else {
            Err(ErrorView::ExecutionFailed("Failed to execute angreal command: "@ + reason@))
        },
        ProcessOutcome::Exited { code, stdout, stderr } => if code == Some(0i32) {
            if stderr@.len() == 0 {
                Ok(stdout@)
            } else {
                Ok(stdout@ + "\n\nStderr:\n"@ + stderr@)
            }
        } else if occurs_in("command not found"@, stderr@) || code == Some(127i32) {
            Err(ErrorView::NotInstalled)
        } else if reports_no_project(stderr@) {
            Err(ErrorView::NotInProject)
        } else if stdout@.len() == 0 {
            Err(ErrorView::ExecutionFailed(stderr@))
        } else {
            Err(ErrorView::ExecutionFailed("Output:\n"@ + stdout@ + "\n\nError:\n"@ + stderr@))
        },
    }
}

/// A result with its texts as sequences of characters.
pub open spec fn result_view(r: Result<String, AngrealError>) -> Result<Seq<char>, ErrorView> {
    match r {
        Ok(text) => Ok(text@),
        Err(e) => Err(e@),
    }
}

/// Tells whether `stderr` says that the working directory is no project of
/// the tool.
fn says_no_project(stderr: &str) -> (b: bool)
    ensures
        b == reports_no_project(stderr@),
{
    contains(stderr, "No angreal.toml") || contains(stderr, "not an angreal project")
}

/// Tells whether `code` is the exit code `wanted`.
fn is_code(code: &Option<i32>, wanted: i32) -> (b: bool)
    ensures
        b == (*code == Some(wanted)),
{
    match code {
        Some(c) => *c == wanted,
        None => false,
    }
}

/// Says what a run of the tool amounts to.
pub fn command_output(outcome: &ProcessOutcome) -> (r: Result<String, AngrealError>)
    ensures
        result_view(r) == run_result(*outcome),
{
    match outcome {
        ProcessOutcome::LaunchFailed { not_found, reason } => {
            if *not_found {
                Err(AngrealError::NotInstalled)
            } else {
                Err(
                    AngrealError::ExecutionFailed(
                        "Failed to execute angreal command: ".to_owned().concat(reason.as_str()),
                    ),
                )
            }
        },
        ProcessOutcome::Exited { code, stdout, stderr } => {
            if is_code(code, 0) {
                if stderr.as_str().is_empty() {
                    Ok(stdout.clone())
                } else {
                    Ok(stdout.clone().concat("\n\nStderr:\n").concat(stderr.as_str()))
                }
            } else if contains(stderr.as_str(), "command not found") || is_code(code, 127) {
                Err(AngrealError::NotInstalled)
            } else if says_no_project(stderr.as_str()) {
                Err(AngrealError::NotInProject)
            } else if stdout.as_str().is_empty() {
                Err(AngrealError::ExecutionFailed(stderr.clone()))
            } else {
                Err(
                    AngrealError::ExecutionFailed(
                        "Output:\n".to_owned().concat(stdout.as_str()).concat(
                            "\n\nError:\n",
                        ).concat(stderr.as_str()),
                    ),
                )
            }
        },
    }
}

/// The argument vector with which the tool is started for a call, or why the
/// call is refused: the command is checked first, then the lengths.
pub open spec fn invocation(command: Seq<char>, args: Seq<Seq<char>>) -> Result<
    Seq<Seq<char>>,
    ErrorView,
> {
    if command_rejection(command) is Some {
        Err(command_rejection(command)->0)
    } else if length_rejection(argument_vector(command, args)) is Some {
        Err(length_rejection(argument_vector(command, args))->0)
    } else {
        Ok(argument_vector(command, args))
    }
}

/// What a call of the tool comes to, where `outcome` is how the run ended
/// that was started for it.  A call that is refused comes to its rejection,
/// whatever `outcome` holds: for such a call nothing is to be started.
pub open spec fn call_result(
    command: Seq<char>,
    args: Seq<Seq<char>>,
    outcome: ProcessOutcome,
) -> Result<Seq<char>, ErrorView> {
    match invocation(command, args) {
        Err(e) => Err(e),
        Ok(_) => run_result(outcome),
    }
}

/// A call that is let through hands on no argument longer than
/// `MAX_ARGUMENT_LEN` characters, and a call of which an argument is longer
/// is refused.
pub proof fn lemma_invocation_bounded(command: Seq<char>, args: Seq<Seq<char>>)
    ensures
        invocation(command, args) matches Ok(argv) ==> forall|i: int|
            0 <= i < argv.len() ==> (#[trigger] argv[i]).len() <= MAX_ARGUMENT_LEN,
        (exists|i: int|
            0 <= i < argument_vector(command, args).len() && (#[trigger] argument_vector(
                command,
                args,
            )[i]).len() > MAX_ARGUMENT_LEN) ==> invocation(command, args) is Err,
{
    lemma_length_rejection(argument_vector(command, args));
}

/// Checks a call and lays out its argument vector.
pub fn prepare_invocation(command: &str, args: &[String]) -> (r: Result<Vec<String>, AngrealError>)
    ensures
        match r {
            Ok(argv) => invocation(command@, args.deep_view()) == Ok::<_, ErrorView>(
                argv.deep_view(),
            ),
            Err(e) => invocation(command@, args.deep_view()) == Err::<Seq<Seq<char>>, _>(e@),
        },
{
    match validate_angreal_command(command) {
        Err(e) => Err(e),
        Ok(_) => parse_command_and_args(command, args),
    }
}

/// The result of running `command` with `args`, where `outcome` is how the
/// run ended that was started with the argument vector of `prepare_invocation`.
pub fn run_angreal_command(
    command: &str,
    args: &[String],
    outcome: &ProcessOutcome,
) -> (r: Result<String, AngrealError>)
    ensures
        result_view(r) == call_result(command@, args.deep_view(), *outcome),
{
    match prepare_invocation(command, args) {
        Err(e) => Err(e),
        Ok(_) => command_output(outcome),
    }
}

/// The arguments that ask the tool for its listing in `format`.
pub open spec fn listing_arguments(format: Seq<char>) -> Seq<Seq<char>> {
    if format == "json"@ {
        seq!["--json"@]
    } else {
        Seq::empty()
    }
}

/// The argument vector with which the tool is started for its listing in
/// `format`, or why the call is refused.
pub open spec fn listing_invocation(format: Seq<char>) -> Result<Seq<Seq<char>>, ErrorView> {
    if !known_format(format) {
        Err(ErrorView::InvalidFormat(format))
    } else {
        invocation("tree"@, listing_arguments(format))
    }
}

/// What a call for the listing in `format` comes to, where `outcome` is how
/// the run ended that was started for it.
pub open spec fn listing_result(format: Seq<char>, outcome: ProcessOutcome) -> Result<
    Seq<char>,
    ErrorView,
> {
    if !known_format(format) {
        Err(ErrorView::InvalidFormat(format))
    } else {
        call_result("tree"@, listing_arguments(format), outcome)
    }
}

/// A call for the listing in a known format is never refused: the tool is
/// started with `tree`, and with `--json` for the format `json`.
pub proof fn lemma_listing_invocation(format: Seq<char>)
    requires
        known_format(format),
    ensures
        listing_invocation(format) == Ok::<_, ErrorView>(seq!["tree"@] + listing_arguments(format)),
{
    let tree = "tree"@;
    reveal_strlit("tree");
    reveal_strlit("--json");
    assert(words(tree) =~= seq![tree]) by {
        reveal_with_fuel(word_len, 5);
        assert(tree.take(4) =~= tree);
        assert(words(tree.skip(4)) =~= Seq::<Seq<char>>::empty());
    }
    lemma_accepted_commands(tree);
    let argv = argument_vector(tree, listing_arguments(format));
    lemma_length_rejection(argv);
}

/// The arguments that ask the tool for its listing in `format`.
fn listing_args(format: &str) -> (args: Vec<String>)
    ensures
        args.deep_view() == listing_arguments(format@),
{
    let mut args: Vec<String> = Vec::new();
    if same_text(format, "json") {
        args.push("--json".to_owned());
    }
    args
}

/// Checks a call for the listing in `format` and lays out its argument
/// vector.
pub fn prepare_listing(format: &str) -> (r: Result<Vec<String>, AngrealError>)
    ensures
        match r {
            Ok(argv) => listing_invocation(format@) == Ok::<_, ErrorView>(argv.deep_view()),
            Err(e) => listing_invocation(format@) == Err::<Seq<Seq<char>>, _>(e@),
        },
        known_format(format@) ==> r is Ok,
{
    match validate_format(format) {
        Err(e) => Err(e),
        Ok(_) => {
            let args = listing_args(format);
            proof {
                lemma_listing_invocation(format@);
            }
            prepare_invocation("tree", args.as_slice())
        },
    }
}

/// The listing of the tool in `format`, where `outcome` is how the run ended
/// that was started with the argument vector of `prepare_listing`.
pub fn get_angreal_tree(format: &str, outcome: &ProcessOutcome) -> (r: Result<String, AngrealError>)
    ensures
        result_view(r) == listing_result(format@, *outcome),
{
    match validate_format(format) {
        Err(e) => Err(e),
        Ok(_) => {
            let args = listing_args(format);
            run_angreal_command("tree", args.as_slice(), outcome)
        },
    }
}

/// Tells whether the tool is at hand, where `version` is how the run ended in
/// which it was asked for its version.
pub fn check_angreal_available(version: &ProcessOutcome) -> (available: bool)
    ensures
        available == succeeded(*version),
{
    match version {
        ProcessOutcome::Exited { code, .. } => is_code(code, 0),
        _ => false,
    }
}

/// What was found out about the tool and the working directory.
#[derive(Debug, PartialEq, Eq)]
pub struct ProjectProbe {
    /// How the run ended in which the tool was asked for its version.
    pub version: ProcessOutcome,
    /// Whether the directory `.angreal` is there.
    pub marker_present: bool,
    /// How the run ended in which the tool was asked for its listing.  It is
    /// asked only where it is at hand and the directory is there.
    pub listing: Option<ProcessOutcome>,
    /// The working directory, if it is known.
    pub directory: Option<String>,
}

/// The lines of the status on the tool itself.
pub open spec fn tool_lines(version: ProcessOutcome) -> Seq<Seq<char>> {
    if succeeded(version) {
        seq!["\u{2713} Angreal is installed: "@ + trimmed(version->stdout@)]
    } else {
        seq![
            "\u{2717} Angreal is not installed or not available in PATH"@,
            "  Install angreal first: pip install angreal"@,
        ]
    }
}

/// The line of the status on the directory `.angreal`.
pub open spec fn marker_lines(marker_present: bool) -> Seq<Seq<char>> {
    if marker_present {
        seq!["\u{2713} Found .angreal/ directory - this is an angreal project"@]
    } else {
        seq!["\u{2717} No .angreal/ directory found - this is not an angreal project"@]
    }
}

/// The lines of the status on what the listing showed.
pub open spec fn listing_lines(listing: Option<ProcessOutcome>) -> Seq<Seq<char>> {
    match listing {
        None => Seq::empty(),
        Some(ProcessOutcome::LaunchFailed { reason, .. }) => seq![
            "\u{26a0} Could not check project status: "@ + reason@,
        ],
        Some(ProcessOutcome::Exited { code, stdout, stderr }) => if code == Some(0i32) {
            if blank(stdout@) || occurs_in("No commands"@, stdout@) {
                seq![
                    "\u{26a0} Project appears to be initialized but has no commands defined"@,
                    "  You may need to add tasks in the .angreal/ directory"@,
                ]
            } else {
                seq![
                    "\u{2713} Project is properly initialized with available commands"@,
                    "  Use 'angreal_tree' tool to see available commands"@,
                ]
            }
        } else if reports_no_project(stderr@) {
            seq![
                "\u{2717} Project folder exists but may not be properly initialized"@,
                "  Try running 'angreal init' to initialize the project"@,
            ]
        } else {
            seq!["\u{26a0} Angreal tree command failed: "@ + trimmed(stderr@)]
        },
    }
}

/// The lines of the status on the project: what the listing showed where the
/// tool is at hand and the directory is there, else what to do next.
pub open spec fn project_lines(probe: ProjectProbe) -> Seq<Seq<char>> {
    if succeeded(probe.version) && probe.marker_present {
        listing_lines(probe.listing)
    } else if probe.marker_present {
        seq!["  Install angreal to work with this project"@]
    } else if succeeded(probe.version) {
        seq![
            "  This directory is not an angreal project"@,
            "  To create an angreal project: angreal init <template-url>"@,
        ]
    } else {
        Seq::empty()
    }
}

/// The line of the status on the working directory.
pub open spec fn directory_lines(directory: Option<String>) -> Seq<Seq<char>> {
    match directory {
        Some(path) => seq!["\nCurrent directory: "@ + path@],
        None => Seq::empty(),
    }
}

/// The lines of the status.
pub open spec fn status_lines(probe: ProjectProbe) -> Seq<Seq<char>> {
    tool_lines(probe.version) + marker_lines(probe.marker_present) + project_lines(probe)
        + directory_lines(probe.directory)
}

/// The status of the project: its lines, one below the other.
pub open spec fn project_status(probe: ProjectProbe) -> Seq<char> {
    joined(status_lines(probe), "\n"@)
}

/// Puts `line` below `lines`.
fn push_line(lines: &mut Vec<String>, line: String)
    ensures
        final(lines).deep_view() == old(lines).deep_view().push(line@),
{
    lines.push(line);
}

/// Puts the lines of the status on what the listing showed below `lines`.
fn push_listing_lines(lines: &mut Vec<String>, listing: &Option<ProcessOutcome>)
    ensures
        final(lines).deep_view() == old(lines).deep_view() + listing_lines(*listing),
{
    match listing {
        None => {},
        Some(ProcessOutcome::LaunchFailed { reason, .. }) => {
            push_line(
                lines,
                "\u{26a0} Could not check project status: ".to_owned().concat(reason.as_str()),
            );
        },
        Some(ProcessOutcome::Exited { code, stdout, stderr }) => {
            if is_code(code, 0) {
                if is_blank(stdout.as_str()) || contains(stdout.as_str(), "No commands") {
                    push_line(
                        lines,
                        "\u{26a0} Project appears to be initialized but has no commands defined".to_owned(),
                    );
                    push_line(
                        lines,
                        "  You may need to add tasks in the .angreal/ directory".to_owned(),
                    );
                } else {
                    push_line(
                        lines,
                        "\u{2713} Project is properly initialized with available commands".to_owned(),
                    );
                    push_line(
                        lines,
                        "  Use 'angreal_tree' tool to see available commands".to_owned(),
                    );
                }
            } else if says_no_project(stderr.as_str()) {
                push_line(
                    lines,
                    "\u{2717} Project folder exists but may not be properly initialized".to_owned(),
                );
                push_line(
                    lines,
                    "  Try running 'angreal init' to initialize the project".to_owned(),
                );
            } else {
                push_line(
                    lines,
                    "\u{26a0} Angreal tree command failed: ".to_owned().concat(
                        trim(stderr.as_str()),
                    ),
                );
            }
        },
    }
}

/// The status of the project, as text for a reader: whether the tool is at
/// hand, whether the directory is a project, what follows from the two, and
/// where all this was looked up.
pub fn check_angreal_project_status(probe: &ProjectProbe) -> (status: String)
    ensures
        status@ == project_status(*probe),
{
    let mut lines: Vec<String> = Vec::new();
    let available = check_angreal_available(&probe.version);
    match &probe.version {
        ProcessOutcome::Exited { stdout, .. } if available => {
            push_line(
                &mut lines,
                "\u{2713} Angreal is installed: ".to_owned().concat(trim(stdout.as_str())),
            );
        },
        _ => {
            push_line(
                &mut lines,
                "\u{2717} Angreal is not installed or not available in PATH".to_owned(),
            );
            push_line(&mut lines, "  Install angreal first: pip install angreal".to_owned());
        },
    }
    if probe.marker_present {
        push_line(
            &mut lines,
            "\u{2713} Found .angreal/ directory - this is an angreal project".to_owned(),
        );
    } else {
        push_line(
            &mut lines,
            "\u{2717} No .angreal/ directory found - this is not an angreal project".to_owned(),
        );
    }
    if available && probe.marker_present {
        push_listing_lines(&mut lines, &probe.listing);
    } else if probe.marker_present {
        push_line(&mut lines, "  Install angreal to work with this project".to_owned());
    } else if available {
        push_line(&mut lines, "  This directory is not an angreal project".to_owned());
        push_line(
            &mut lines,
            "  To create an angreal project: angreal init <template-url>".to_owned(),
        );
    }
    match &probe.directory {
        Some(path) => {
            push_line(&mut lines, "\nCurrent directory: ".to_owned().concat(path.as_str()));
        },
        None => {},
    }
    assert(lines.deep_view() =~= status_lines(*probe));
    join(&lines, "\n")
}

} // verus!
