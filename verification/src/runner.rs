//! The installer runner: the state machine that drives one run from fetch to
//! terminal outcome. Every decision of a run lives here; the host performs
//! the actions each step hands back (fetch a URL, spawn the shell, emit a
//! line to the caller) and feeds the result into the next step. A run is
//! `Idle -> Fetching -> Starting -> Streaming -> Done`, with every failure
//! terminal for that run: no retries.

use vstd::prelude::*;
use vstd::string::*;
use crate::shim::build_wrapped;
use crate::shim::wrapped_script_spec;
use crate::store::CredentialStore;

verus! {

/// The fixed remote location scripts are fetched from; the script name is
/// appended to it to form the request target.
pub const BASE_URL: &'static str = "https://raw.githubusercontent.com/JaewooJoung/linux/main/";

/// Precondition failure: a run was attempted with no cached credential.
pub const NO_CREDENTIAL_MSG: &'static str = "No sudo password set. Please authenticate first.";

/// Network failure, transport side: the fetch tool could not be spawned or
/// could not reach the remote source; its own words follow the prefix.
pub const DOWNLOAD_FAILED_PREFIX: &'static str = "Failed to download script: ";

/// Network failure, remote side: the source answered with a non-success
/// status for the named script.
pub const FETCH_FAILED_PREFIX: &'static str = "Failed to fetch script: ";

/// Mechanism failure: the shell interpreter could not be spawned; its own
/// words follow the prefix.
pub const RUN_FAILED_PREFIX: &'static str = "Failed to run script: ";

/// Execution failure: the wrapped script exited non-zero; detail is
/// expected to already stand in the streamed output.
pub const SCRIPT_FAILED_MSG: &'static str = "Installation failed. Check output for details.";

pub const FETCHING_PREFIX: &'static str = "==> Fetching ";

pub const FETCHING_SUFFIX: &'static str = "...\n";

pub const RUNNING_BANNER: &'static str = "==> Running installation...\n";

pub const COMPLETE_BANNER: &'static str = "\n✅ Installation complete!\n";

/// The request target for a named script: the fixed base location with the
/// name appended, exactly.
pub open spec fn script_url_spec(name: Seq<char>) -> Seq<char> {
    BASE_URL@ + name
}

/// The banner announcing a fetch of `url`.
pub open spec fn fetching_banner(url: Seq<char>) -> Seq<char> {
    FETCHING_PREFIX@ + url + FETCHING_SUFFIX@
}

/// How one output line of the running script reads when emitted to the
/// caller: the line with its newline restored.
pub open spec fn emitted_line(l: Seq<char>) -> Seq<char> {
    l + "\n"@
}

/// Builds the request target for a named script.
pub fn script_url(name: &str) -> (r: String)
    ensures
        r@ == script_url_spec(name@),
{
    String::from_str(BASE_URL).concat(name)
}

/// Terminal status of one run: success, or failure with a human-readable
/// reason.
pub enum RunOutcome {
    Success,
    Failure(String),
}

/// Where a run stands. `Starting` holds no data: the wrapped script travels
/// in the action that asks the host to spawn it.
pub enum RunState {
    Idle,
    Fetching { secret: String, script_name: String },
    Starting,
    Streaming,
    Done { outcome: RunOutcome },
}

/// What the host must do after a step: nothing, fetch a URL (announcing it
/// to the caller first), spawn the shell on a wrapped script (announcing),
/// or emit one line to the caller.
pub enum Action {
    NoAction,
    FetchScript { url: String, announce: String },
    SpawnShell { script: String, announce: String },
    EmitLine { text: String },
}

/// What fetching the script came to: its text, a transport/spawn failure
/// with the tool's words, or a non-success answer from the remote source.
pub enum FetchResult {
    Fetched(String),
    FetchSpawnFailed(String),
    RemoteFailed,
}

/// First transition of a run. With no cached credential the run is over
/// before any fetch: the precondition-failure outcome, and nothing for the
/// host to do. With a credential the run moves to `Fetching` and the host
/// is told to fetch the script's URL.
pub fn start_run(store: &CredentialStore, script_name: &str) -> (r: (RunState, Action))
    ensures
        store@ is None ==> ({
            &&& r.0 matches RunState::Done { outcome: RunOutcome::Failure(m) } && m@
                == NO_CREDENTIAL_MSG@
            &&& r.1 is NoAction
        }),
        store@ matches Some(sec) ==> ({
            &&& r.0 matches RunState::Fetching { secret, script_name: n } && secret@ == sec && n@
                == script_name@
            &&& r.1 matches Action::FetchScript { url, announce } && url@ == script_url_spec(
                script_name@,
            ) && announce@ == fetching_banner(script_url_spec(script_name@))
        }),
{
    match store.get() {
        None => (
            RunState::Done { outcome: RunOutcome::Failure(String::from_str(NO_CREDENTIAL_MSG)) },
            Action::NoAction,
        ),
        Some(secret) => {
            let url = script_url(script_name);
            let announce = String::from_str(FETCHING_PREFIX).concat(url.as_str()).concat(
                FETCHING_SUFFIX,
            );
            (
                RunState::Fetching { secret, script_name: script_name.to_owned() },
                Action::FetchScript { url, announce },
            )
        },
    }
}

/// Transition out of `Fetching`. A fetched body is wrapped — shim
/// construction is pure text composition and cannot fail — and the host is
/// told to spawn the shell on the wrapped script; either fetch failure ends
/// the run with its own diagnostic.
pub fn on_fetch(state: RunState, result: FetchResult) -> (r: (RunState, Action))
    requires
        state is Fetching,
    ensures
        state matches RunState::Fetching { secret, script_name } ==> match result {
            FetchResult::Fetched(body) => {
                &&& r.0 is Starting
                &&& r.1 matches Action::SpawnShell { script, announce } && script@
                    == wrapped_script_spec(secret@, body@) && announce@ == RUNNING_BANNER@
            },
            FetchResult::FetchSpawnFailed(e) => {
                &&& r.0 matches RunState::Done { outcome: RunOutcome::Failure(m) } && m@
                    == DOWNLOAD_FAILED_PREFIX@ + e@
                &&& r.1 is NoAction
            },
            FetchResult::RemoteFailed => {
                &&& r.0 matches RunState::Done { outcome: RunOutcome::Failure(m) } && m@
                    == FETCH_FAILED_PREFIX@ + script_name@
                &&& r.1 is NoAction
            },
        },
{
    match state {
        RunState::Fetching { secret, script_name } => match result {
            FetchResult::Fetched(body) => {
                let script = build_wrapped(secret.as_str(), body.as_str());
                (
                    RunState::Starting,
                    Action::SpawnShell { script, announce: String::from_str(RUNNING_BANNER) },
                )
            },
            FetchResult::FetchSpawnFailed(e) => (
                RunState::Done {
                    outcome: RunOutcome::Failure(
                        String::from_str(DOWNLOAD_FAILED_PREFIX).concat(e.as_str()),
                    ),
                },
                Action::NoAction,
            ),
            FetchResult::RemoteFailed => (
                RunState::Done {
                    outcome: RunOutcome::Failure(
                        String::from_str(FETCH_FAILED_PREFIX).concat(script_name.as_str()),
                    ),
                },
                Action::NoAction,
            ),
        },
        _ => vstd::pervasive::unreached(),
    }
}

/// Transition out of `Starting`: the run streams once the shell is up; a
/// spawn failure ends it with the interpreter's own words.
pub fn on_spawn(state: RunState, spawn_error: Option<String>) -> (r: (RunState, Action))
    requires
        state is Starting,
    ensures
        match spawn_error {
            None => r.0 is Streaming && r.1 is NoAction,
            Some(e) => ({
                &&& r.0 matches RunState::Done { outcome: RunOutcome::Failure(m) } && m@
                    == RUN_FAILED_PREFIX@ + e@
                &&& r.1 is NoAction
            }),
        },
{
    match spawn_error {
        None => (RunState::Streaming, Action::NoAction),
        Some(e) => (
            RunState::Done {
                outcome: RunOutcome::Failure(String::from_str(RUN_FAILED_PREFIX).concat(e.as_str())),
            },
            Action::NoAction,
        ),
    }
}

/// One streamed line: the run stays in `Streaming` and the caller is handed
/// the line, newline restored, as soon as it arrived.
pub fn on_line(state: RunState, line: &str) -> (r: (RunState, Action))
    requires
        state is Streaming,
    ensures
        r.0 is Streaming,
        r.1 matches Action::EmitLine { text } && text@ == emitted_line(line@),
{
    (RunState::Streaming, Action::EmitLine { text: line.to_owned().concat("\n") })
}

/// Terminal transition: the child's exit status alone decides the outcome.
/// Success is announced to the caller; failure carries the generic reason —
/// script-level detail is already in the streamed output.
pub fn on_exit(state: RunState, exit_success: bool) -> (r: (RunState, Action))
    requires
        state is Streaming,
    ensures
        exit_success ==> ({
            &&& r.0 matches RunState::Done { outcome } && outcome is Success
            &&& r.1 matches Action::EmitLine { text } && text@ == COMPLETE_BANNER@
        }),
        !exit_success ==> ({
            &&& r.0 matches RunState::Done { outcome: RunOutcome::Failure(m) } && m@
                == SCRIPT_FAILED_MSG@
            &&& r.1 is NoAction
        }),
{
    if exit_success {
        (
            RunState::Done { outcome: RunOutcome::Success },
            Action::EmitLine { text: String::from_str(COMPLETE_BANNER) },
        )
    } else {
        (
            RunState::Done { outcome: RunOutcome::Failure(String::from_str(SCRIPT_FAILED_MSG)) },
            Action::NoAction,
        )
    }
}

/// Maps a terminal outcome to what the external caller receives.
pub fn outcome_to_result(outcome: RunOutcome) -> (r: Result<(), String>)
    ensures
        outcome is Success <==> r is Ok,
        outcome matches RunOutcome::Failure(m) ==> r matches Err(e) && e@ == m@,
{
    match outcome {
        RunOutcome::Success => Ok(()),
        RunOutcome::Failure(m) => Err(m),
    }
}

/// One event of a run as the caller observes it: an emitted output line, or
/// the terminal outcome (`true` for success).
pub enum TranscriptEvent {
    Output(Seq<char>),
    Terminal(bool),
}

/// The stream a whole `Streaming` phase produces: one output event per line
/// of the child, in arrival order, closed by the terminal event.
pub open spec fn transcript(lines: Seq<Seq<char>>, exit_success: bool) -> Seq<TranscriptEvent> {
    Seq::new(lines.len(), |i: int| TranscriptEvent::Output(emitted_line(lines[i]))).push(
        TranscriptEvent::Terminal(exit_success),
    )
}

/// Output ordering law: the caller observes one output event per line, in
/// exactly the lines' arrival order, and every output event is delivered
/// before the terminal event, which comes last and carries the exit status.
pub proof fn lemma_transcript_order(lines: Seq<Seq<char>>, exit_success: bool)
    ensures
        transcript(lines, exit_success).len() == lines.len() + 1,
        forall|i: int|
            0 <= i < lines.len() ==> transcript(lines, exit_success)[i] == TranscriptEvent::Output(
                emitted_line(lines[i]),
            ),
        transcript(lines, exit_success).last() == TranscriptEvent::Terminal(exit_success),
{
}

} // verus!
