//! The dispatcher: one parsed operation becomes exactly one call into the
//! external retrieval library, with its parameters resolved here — the
//! output directory falls back to the current working directory, the
//! requested metadata is named, and every log and error line the run emits
//! is built by a function with an exact contract.

use crate::args::{
    lemma_output_flag_absent, lemma_semaphore_flag_absent, spec_default_concurrency, spec_parse,
    FetchArgs, FetchSpec, LoginArgs, OpSpec, Operation, UsageError,
};
use crate::numbers::{spec_decimal, decimal};
use vstd::prelude::*;

verus! {

/// The one call an invocation hands to the retrieval library.
pub enum Action {
    FetchStory {
        id: u64,
        include_images: bool,
        concurrency: u32,
        output_dir: String,
        request_title: bool,
    },
    Login { username: String, password: String },
    Logout,
}

/// Mathematical form of `Action`.
pub enum ActionSpec {
    FetchStory {
        id: u64,
        include_images: bool,
        concurrency: u32,
        output_dir: Seq<char>,
        request_title: bool,
    },
    Login { username: Seq<char>, password: Seq<char> },
    Logout,
}

impl View for Action {
    type V = ActionSpec;

    open spec fn view(&self) -> ActionSpec {
        match self {
            Action::FetchStory { id, include_images, concurrency, output_dir, request_title } => {
                ActionSpec::FetchStory {
                    id: *id,
                    include_images: *include_images,
                    concurrency: *concurrency,
                    output_dir: output_dir@,
                    request_title: *request_title,
                }
            },
            Action::Login { username, password } => {
                ActionSpec::Login { username: username@, password: password@ }
            },
            Action::Logout => ActionSpec::Logout,
        }
    }
}

/// Where the document goes: the directory named on the command line, or
/// the current working directory when none was named.
pub open spec fn spec_resolved_dir(explicit: Option<Seq<char>>, cwd: Seq<char>) -> Seq<char> {
    match explicit {
        Some(d) => d,
        None => cwd,
    }
}

/// Resolves the output directory against the given working directory.
pub fn resolve_output_dir(explicit: Option<String>, cwd: String) -> (r: String)
    ensures
        r@ == spec_resolved_dir(explicit.deep_view(), cwd@),
{
    match explicit {
        Some(d) => d,
        None => cwd,
    }
}

/// The call each operation maps to: fetch resolves its directory and asks
/// for the title; login and logout carry their payload through unchanged.
pub open spec fn spec_plan(op: OpSpec, cwd: Seq<char>) -> ActionSpec {
    match op {
        OpSpec::Fetch(f) => ActionSpec::FetchStory {
            id: f.id,
            include_images: f.include_images,
            concurrency: f.concurrency,
            output_dir: spec_resolved_dir(f.output_dir, cwd),
            request_title: true,
        },
        OpSpec::Login(l) => ActionSpec::Login { username: l.username, password: l.password },
        OpSpec::Logout => ActionSpec::Logout,
    }
}

/// Maps one operation to the one call it stands for, given the current
/// working directory.
pub fn plan_action(op: Operation, cwd: String) -> (a: Action)
    ensures
        a@ == spec_plan(op@, cwd@),
{
    match op {
        Operation::Fetch(f) => {
            let FetchArgs { id, include_images, output_dir, concurrency } = f;
            let dir = resolve_output_dir(output_dir, cwd);
            Action::FetchStory {
                id,
                include_images,
                concurrency,
                output_dir: dir,
                request_title: true,
            }
        },
        Operation::Login(l) => {
            let LoginArgs { username, password } = l;
            Action::Login { username, password }
        },
        Operation::Logout => Action::Logout,
    }
}

/// Each operation executes exactly one kind of call: the planned action's
/// variant corresponds one-to-one to the operation's.
pub proof fn lemma_one_action_per_operation(op: OpSpec, cwd: Seq<char>)
    ensures
        (op is Fetch <==> spec_plan(op, cwd) is FetchStory),
        (op is Login <==> spec_plan(op, cwd) is Login),
        (op is Logout <==> spec_plan(op, cwd) is Logout),
{
}

/// Law: when a fetch command line never names the output flag, the
/// directory handed to the retrieval library is the current working
/// directory at invocation time.
pub proof fn lemma_omitted_output_resolves_to_cwd(
    toks: Seq<Seq<char>>,
    f: FetchSpec,
    cwd: Seq<char>,
)
    requires
        spec_parse(toks) == Ok::<OpSpec, UsageError>(OpSpec::Fetch(f)),
        forall|i: int| 0 <= i < toks.len() ==> toks[i] != "--output"@ && toks[i] != "-o"@,
    ensures
        f.output_dir is None,
        spec_plan(OpSpec::Fetch(f), cwd) matches ActionSpec::FetchStory { output_dir, .. }
            && output_dir == cwd,
{
    lemma_output_flag_absent(toks, f);
}

/// Law: the concurrency limit handed to the retrieval library equals the
/// parsed flag value, which defaults when the flag is absent.
pub proof fn lemma_concurrency_passed_downstream(
    toks: Seq<Seq<char>>,
    f: FetchSpec,
    cwd: Seq<char>,
)
    requires
        spec_parse(toks) == Ok::<OpSpec, UsageError>(OpSpec::Fetch(f)),
    ensures
        spec_plan(OpSpec::Fetch(f), cwd) matches ActionSpec::FetchStory { concurrency, .. }
            && concurrency == f.concurrency,
        (forall|i: int| 0 <= i < toks.len() ==> toks[i] != "--semaphore"@ && toks[i] != "-s"@)
            ==> f.concurrency == spec_default_concurrency(),
{
    if forall|i: int| 0 <= i < toks.len() ==> toks[i] != "--semaphore"@ && toks[i] != "-s"@ {
        lemma_semaphore_flag_absent(toks, f);
    }
}

/// The title reported for a successful fetch: what the retrieval library
/// returned, or the sentinel when it returned none.
pub open spec fn spec_reported_title(title: Option<Seq<char>>) -> Seq<char> {
    match title {
        Some(t) => t,
        None => "Unknown Title"@,
    }
}

/// Substitutes the sentinel for an absent title.
pub fn title_or_sentinel(title: Option<String>) -> (r: String)
    ensures
        r@ == spec_reported_title(title.deep_view()),
{
    match title {
        Some(t) => t,
        None => "Unknown Title".to_owned(),
    }
}

/// The context label wrapped around any error of the operation, so that
/// failures are distinguishable by which command was running.
pub open spec fn spec_context_label(op: OpSpec) -> Seq<char> {
    match op {
        OpSpec::Fetch(_) => "Failed to process story"@,
        OpSpec::Login(_) => "Failed to login"@,
        OpSpec::Logout => "Failed to logout"@,
    }
}

/// The operation's context label as a string.
pub fn context_label(op: &Operation) -> (r: String)
    ensures
        r@ == spec_context_label(op@),
{
    match op {
        Operation::Fetch(_) => "Failed to process story".to_owned(),
        Operation::Login(_) => "Failed to login".to_owned(),
        Operation::Logout => "Failed to logout".to_owned(),
    }
}

/// The single terminal error line: the context label, then the cause.
pub fn error_line(label: &str, cause: &str) -> (r: String)
    ensures
        r@ == label@ + ": "@ + cause@,
{
    let mut m = label.to_owned();
    m.append(": ");
    m.append(cause);
    assert(m@ =~= label@ + ": "@ + cause@);
    m
}

/// The line logged when an operation starts, naming its key parameter:
/// the story id for a fetch, the username for a login.
pub open spec fn spec_start_message(op: OpSpec) -> Seq<char> {
    match op {
        OpSpec::Fetch(f) => "Handling 'do' command, id="@ + spec_decimal(f.id),
        OpSpec::Login(l) => "Handling 'login' command, username="@ + l.username,
        OpSpec::Logout => "Handling 'logout' command"@,
    }
}

/// Builds the operation's start log line.
pub fn start_message(op: &Operation) -> (r: String)
    ensures
        r@ == spec_start_message(op@),
{
    match op {
        Operation::Fetch(f) => {
            let mut m = "Handling 'do' command, id=".to_owned();
            let digits = decimal(f.id);
            m.append(digits.as_str());
            m
        },
        Operation::Login(l) => {
            let mut m = "Handling 'login' command, username=".to_owned();
            m.append(l.username.as_str());
            m
        },
        Operation::Logout => "Handling 'logout' command".to_owned(),
    }
}

/// The line logged when a fetch completes, with the reported title.
pub fn fetch_success_message(title: Option<String>) -> (r: String)
    ensures
        r@ == "Story processing completed successfully, title="@ + spec_reported_title(
            title.deep_view(),
        ),
{
    let mut m = "Story processing completed successfully, title=".to_owned();
    let t = title_or_sentinel(title);
    m.append(t.as_str());
    m
}

/// The line logged when a login completes.
pub fn login_success_message() -> (r: String)
    ensures
        r@ == "Login successful!"@,
{
    "Login successful!".to_owned()
}

/// The line logged when a logout completes.
pub fn logout_success_message() -> (r: String)
    ensures
        r@ == "Logout successful!"@,
{
    "Logout successful!".to_owned()
}

/// What each usage error says when it refuses the command line.
pub open spec fn spec_usage_message(e: UsageError) -> Seq<char> {
    match e {
        UsageError::MissingCommand => "usage error: a subcommand is required (do, login, logout)"@,
        UsageError::UnknownCommand => "usage error: unrecognized subcommand"@,
        UsageError::UnknownFlag => "usage error: unrecognized flag"@,
        UsageError::MissingValue => "usage error: a flag expects a value"@,
        UsageError::DuplicateFlag => "usage error: a flag was given more than once"@,
        UsageError::MissingStoryId => "usage error: --id is required"@,
        UsageError::MissingUsername => "usage error: --username is required"@,
        UsageError::MissingPassword => "usage error: --password is required"@,
        UsageError::EmptyUsername => "usage error: the username must not be empty"@,
        UsageError::EmptyPassword => "usage error: the password must not be empty"@,
        UsageError::InvalidNumber => "usage error: malformed numeric value"@,
        UsageError::ZeroConcurrency => "usage error: the concurrency limit must be positive"@,
        UsageError::UnexpectedArgument => "usage error: unexpected argument"@,
    }
}

/// The usage message printed for a refused command line.
pub fn usage_message(e: &UsageError) -> (r: String)
    ensures
        r@ == spec_usage_message(*e),
{
    match e {
        UsageError::MissingCommand => "usage error: a subcommand is required (do, login, logout)".to_owned(),
        UsageError::UnknownCommand => "usage error: unrecognized subcommand".to_owned(),
        UsageError::UnknownFlag => "usage error: unrecognized flag".to_owned(),
        UsageError::MissingValue => "usage error: a flag expects a value".to_owned(),
        UsageError::DuplicateFlag => "usage error: a flag was given more than once".to_owned(),
        UsageError::MissingStoryId => "usage error: --id is required".to_owned(),
        UsageError::MissingUsername => "usage error: --username is required".to_owned(),
        UsageError::MissingPassword => "usage error: --password is required".to_owned(),
        UsageError::EmptyUsername => "usage error: the username must not be empty".to_owned(),
        UsageError::EmptyPassword => "usage error: the password must not be empty".to_owned(),
        UsageError::InvalidNumber => "usage error: malformed numeric value".to_owned(),
        UsageError::ZeroConcurrency => "usage error: the concurrency limit must be positive".to_owned(),
        UsageError::UnexpectedArgument => "usage error: unexpected argument".to_owned(),
    }
}

} // verus!
