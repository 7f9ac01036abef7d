//! The decisions of the script installer: validating the request, spawning the
//! install pipeline, watching it, and stopping it on cancellation or failure.
//! Each step takes the state and what the last action produced and gives the
//! next state and action; the caller performs the actions on the process.
use crate::error::{Error, Result};
use crate::installer::{check_script_request, safe_tag};
use vstd::prelude::*;
use vstd::string::*;

verus! {

/// A signal sent to the install pipeline's process group.
#[derive(Clone, Copy, Debug, PartialEq, Eq, Structural)]
pub enum GroupSignal {
    /// Ask the group to terminate (`SIGTERM`).
    Terminate,
    /// Only test whether the group still has members (no signal).
    Probe,
    /// Force the group to stop (`SIGKILL`).
    Kill,
}

/// A process group may be signalled only when its id is positive and is not
/// the caller's own group.
pub fn may_signal_group(group: i32, caller_group: i32) -> (r: bool)
    ensures
        r == (group > 0 && group != caller_group),
{
    group > 0 && group != caller_group
}

/// The shell that runs the install pipeline.
pub open spec fn script_shell() -> Seq<char> {
    "bash"@
}

/// The pipeline the shell runs: the script is downloaded with curl, `--`
/// keeping the URL from being read as an option, and piped into Bash with
/// `--force --tag=<tag>`. The URL and tag are the positional parameters `$1`
/// and `$2`, data that is never part of the shell source.
pub open spec fn script_program() -> Seq<char> {
    "curl -fsSL -- \"$1\" | bash -s -- --force \"--tag=$2\""@
}

/// The shell's arguments: `pipefail`, so that a failed download fails the
/// installation, the program, `$0`, and the URL and tag as `$1` and `$2`.
pub open spec fn script_arguments_spec(url: Seq<char>, tag: Seq<char>) -> Seq<Seq<char>> {
    seq!["-o"@, "pipefail"@, "-c"@, script_program(), "selfupdate-rs"@, url, tag]
}

/// The texts held by a list of strings.
pub open spec fn strings_view(v: Seq<String>) -> Seq<Seq<char>> {
    v.map_values(|a: String| a@)
}

/// The shell's arguments for installing `tag` from the script at `url`.
pub fn script_arguments(url: &str, tag: &str) -> (r: Vec<String>)
    ensures
        strings_view(r@) == script_arguments_spec(url@, tag@),
{
    let mut r: Vec<String> = Vec::new();
    r.push(String::from_str("-o"));
    r.push(String::from_str("pipefail"));
    r.push(String::from_str("-c"));
    r.push(String::from_str("curl -fsSL -- \"$1\" | bash -s -- --force \"--tag=$2\""));
    r.push(String::from_str("selfupdate-rs"));
    r.push(String::from_str(url));
    r.push(String::from_str(tag));
    assert(strings_view(r@) =~= script_arguments_spec(url@, tag@));
    r
}

/// How long the supervisor pauses between polls of the pipeline, in
/// milliseconds.
pub const POLL_MILLIS: u64 = 25;

/// How long a detached group is given to stop after `SIGTERM` before it is
/// killed, in milliseconds.
pub const GRACE_MILLIS: u64 = 5000;

/// How the install pipeline exited.
#[derive(Debug)]
pub struct ExitReport {
    /// Whether it exited successfully.
    pub success: bool,
    /// The exit code, when the pipeline exited rather than being signalled.
    pub code: Option<i32>,
    /// The exit status as displayed.
    pub text: String,
}

impl ExitReport {
    /// Whether the pipeline exited successfully.
    pub fn success(&self) -> (r: bool)
        ensures
            r == self.success,
    {
        self.success
    }

    /// The exit code, if the pipeline exited with one.
    pub fn code(&self) -> (r: Option<i32>)
        ensures
            r == self.code,
    {
        self.code
    }
}

/// What an installation was asked for.
pub struct InstallConfig {
    /// The install script's URL.
    pub url: String,
    /// The release tag to install.
    pub tag: String,
    /// Whether the platform is Darwin, whose `killpg` reports a permission error
    /// once only zombies remain in the group.
    pub darwin: bool,
}

/// Where an installation stands. `bool` fields tell whether the pipeline runs
/// in a process group of its own (stdin is not a terminal); `Error` fields hold
/// the outcome owed once the pipeline is stopped.
pub enum InstallState {
    /// Cancellation checked before validating the request.
    Starting,
    /// Asking whether stdin is a terminal.
    InspectingStdin,
    /// The process streams are being prepared.
    Preparing(bool),
    /// Cancellation checked before spawning.
    BeforeSpawn(bool),
    /// The pipeline is being spawned.
    Spawning(bool),
    /// Polling the cancellation flag while the pipeline runs.
    Watching(bool),
    /// Polling the pipeline's status.
    Polling(bool),
    /// Pausing between polls.
    Sleeping(bool),
    /// The pipeline exited; the cancellation flag is polled once more.
    Exited(bool, ExitReport),
    /// Stopping a pipeline that shares the caller's group: its status polled.
    ReapingChild(Error),
    /// Stopping a pipeline that shares the caller's group: killing it.
    KillingChild(Error),
    /// Stopping a detached pipeline: the grace period's deadline is being set.
    Arming(Error),
    /// The leader's status polled before signalling the group with the signal held.
    Reaping(Error, GroupSignal),
    /// The group is being signalled with the signal held.
    Signalling(Error, GroupSignal),
    /// Darwin's permission error: the clock decides whether to keep waiting.
    PermissionWait(Error, GroupSignal, std::io::Error),
    /// The clock read after a round of termination.
    Timing(Error, GroupSignal),
    /// The deadline passed: the group is being killed.
    Escalating(Error),
    /// Pausing between rounds of termination.
    Pausing(Error, GroupSignal),
    /// Termination failed: the group is killed regardless.
    CleanupGroup(Error, std::io::Error),
    /// Termination failed: the child is killed regardless.
    CleanupChild(Error, std::io::Error),
    /// The child is being waited for; holds the termination failure, if any.
    Waiting(Error, Option<std::io::Error>),
    /// The installation has finished.
    Done,
}

/// What the last action produced.
pub enum InstallEvent {
    TokenChecked(Result<()>),
    /// Whether stdin is a terminal.
    StdinInspected(bool),
    Prepared(std::result::Result<(), std::io::Error>),
    Spawned(std::result::Result<(), std::io::Error>),
    /// Whether cancellation was requested.
    CancelPolled(bool),
    /// The pipeline's status: how it exited, or `None` while it runs.
    StatusPolled(std::result::Result<Option<ExitReport>, std::io::Error>),
    Slept,
    DeadlineSet,
    /// Whether the group still had members, and whether a failure was a
    /// permission error.
    Signalled { result: std::result::Result<bool, std::io::Error>, permission_denied: bool },
    /// Whether the deadline has passed.
    ClockRead(bool),
    ChildKilled(std::result::Result<(), std::io::Error>),
    Waited(std::result::Result<(), std::io::Error>),
}

/// What the caller does next.
pub enum InstallAction {
    /// Check the cancellation token (`TokenChecked`).
    CheckToken,
    /// Ask whether stdin is a terminal (`StdinInspected`).
    InspectStdin,
    /// Prepare the pipeline's streams (`Prepared`).
    PrepareStreams,
    /// Spawn `program` with `arguments`, in a group of its own when
    /// `detached` (`Spawned`).
    Spawn { program: String, arguments: Vec<String>, detached: bool },
    /// Poll the cancellation flag (`CancelPolled`).
    PollCancel,
    /// Poll the pipeline's status without blocking (`StatusPolled`).
    PollStatus,
    /// Pause for this many milliseconds (`Slept`).
    Sleep(u64),
    /// Set the deadline of the grace period, this many milliseconds from now
    /// (`DeadlineSet`).
    SetDeadline(u64),
    /// Signal the pipeline's group (`Signalled`).
    Signal(GroupSignal),
    /// Compare the clock with the deadline (`ClockRead`).
    ReadClock,
    /// Kill the direct child (`ChildKilled`).
    KillChild,
    /// Wait for the direct child to exit (`Waited`).
    Wait,
    /// The installation ends with this result.
    Finish(Result<()>),
}

/// An action as the values it carries; a refused request shows as the text it
/// names.
pub enum InstallActionView {
    CheckToken,
    InspectStdin,
    PrepareStreams,
    Spawn(Seq<char>, Seq<Seq<char>>, bool),
    PollCancel,
    PollStatus,
    Sleep(u64),
    SetDeadline(u64),
    Signal(GroupSignal),
    ReadClock,
    KillChild,
    Wait,
    Misconfigured(Seq<char>),
    UnsafeTag(Seq<char>),
    Finish(Result<()>),
}

pub open spec fn install_finish_view(r: Result<()>) -> InstallActionView {
    match r {
        Err(Error::Configuration(m)) => InstallActionView::Misconfigured(m@),
        Err(Error::UnsafeTag(t)) => InstallActionView::UnsafeTag(t@),
        _ => InstallActionView::Finish(r),
    }
}

pub open spec fn install_action_view(a: InstallAction) -> InstallActionView {
    match a {
        InstallAction::CheckToken => InstallActionView::CheckToken,
        InstallAction::InspectStdin => InstallActionView::InspectStdin,
        InstallAction::PrepareStreams => InstallActionView::PrepareStreams,
        InstallAction::Spawn { program, arguments, detached } => InstallActionView::Spawn(
            program@,
            strings_view(arguments@),
            detached,
        ),
        InstallAction::PollCancel => InstallActionView::PollCancel,
        InstallAction::PollStatus => InstallActionView::PollStatus,
        InstallAction::Sleep(ms) => InstallActionView::Sleep(ms),
        InstallAction::SetDeadline(ms) => InstallActionView::SetDeadline(ms),
        InstallAction::Signal(g) => InstallActionView::Signal(g),
        InstallAction::ReadClock => InstallActionView::ReadClock,
        InstallAction::KillChild => InstallActionView::KillChild,
        InstallAction::Wait => InstallActionView::Wait,
        InstallAction::Finish(r) => install_finish_view(r),
    }
}

/// Which event answers the action taken in each state.
pub open spec fn install_fits(s: InstallState, e: InstallEvent) -> bool {
    match s {
        InstallState::Starting => e is TokenChecked,
        InstallState::InspectingStdin => e is StdinInspected,
        InstallState::Preparing(_) => e is Prepared,
        InstallState::BeforeSpawn(_) => e is TokenChecked,
        InstallState::Spawning(_) => e is Spawned,
        InstallState::Watching(_) => e is CancelPolled,
        InstallState::Polling(_) => e is StatusPolled,
        InstallState::Sleeping(_) => e is Slept,
        InstallState::Exited(_, _) => e is CancelPolled,
        InstallState::ReapingChild(_) => e is StatusPolled,
        InstallState::KillingChild(_) => e is ChildKilled,
        InstallState::Arming(_) => e is DeadlineSet,
        InstallState::Reaping(_, _) => e is StatusPolled,
        InstallState::Signalling(_, _) => e is Signalled,
        InstallState::PermissionWait(_, _, _) => e is ClockRead,
        InstallState::Timing(_, _) => e is ClockRead,
        InstallState::Escalating(_) => e is Signalled,
        InstallState::Pausing(_, _) => e is Slept,
        InstallState::CleanupGroup(_, _) => e is Signalled,
        InstallState::CleanupChild(_, _) => e is ChildKilled,
        InstallState::Waiting(_, _) => e is Waited,
        InstallState::Done => false,
    }
}

/// The request the script installer accepts: a configured URL and a safe tag.
pub open spec fn request_ok(c: InstallConfig) -> bool {
    c.url@.len() > 0 && safe_tag(c.tag@)
}

/// Begin stopping the pipeline, owing `cause` once it is stopped: a detached
/// group gets a grace period, a child in the caller's group is only killed.
pub open spec fn stop_start(detached: bool, cause: Error) -> (InstallState, InstallActionView) {
    if detached {
        (InstallState::Arming(cause), InstallActionView::SetDeadline(GRACE_MILLIS))
    } else {
        (InstallState::ReapingChild(cause), InstallActionView::PollStatus)
    }
}

/// One step of an installation.
pub open spec fn install_next(c: InstallConfig, s: InstallState, e: InstallEvent) -> (
    InstallState,
    InstallActionView,
) {
    match s {
        InstallState::Starting => match e {
            InstallEvent::TokenChecked(Err(err)) => (
                InstallState::Done,
                install_finish_view(Err(err)),
            ),
            InstallEvent::TokenChecked(Ok(())) => if c.url@.len() == 0 {
                (
                    InstallState::Done,
                    InstallActionView::Misconfigured("ScriptInstaller URL is empty"@),
                )
            } else if !safe_tag(c.tag@) {
                (InstallState::Done, InstallActionView::UnsafeTag(c.tag@))
            } else {
                (InstallState::InspectingStdin, InstallActionView::InspectStdin)
            },
            _ => (s, InstallActionView::CheckToken),
        },
        InstallState::InspectingStdin => match e {
            InstallEvent::StdinInspected(terminal) => (
                InstallState::Preparing(!terminal),
                InstallActionView::PrepareStreams,
            ),
            _ => (s, InstallActionView::CheckToken),
        },
        InstallState::Preparing(d) => match e {
            InstallEvent::Prepared(Err(err)) => (
                InstallState::Done,
                install_finish_view(Err(Error::Process(err))),
            ),
            InstallEvent::Prepared(Ok(())) => (
                InstallState::BeforeSpawn(d),
                InstallActionView::CheckToken,
            ),
            _ => (s, InstallActionView::CheckToken),
        },
        InstallState::BeforeSpawn(d) => match e {
            InstallEvent::TokenChecked(Err(err)) => (
                InstallState::Done,
                install_finish_view(Err(err)),
            ),
            InstallEvent::TokenChecked(Ok(())) => (
                InstallState::Spawning(d),
                InstallActionView::Spawn(
                    script_shell(),
                    script_arguments_spec(c.url@, c.tag@),
                    d,
                ),
            ),
            _ => (s, InstallActionView::CheckToken),
        },
        InstallState::Spawning(d) => match e {
            InstallEvent::Spawned(Err(err)) => (
                InstallState::Done,
                install_finish_view(Err(Error::Process(err))),
            ),
            InstallEvent::Spawned(Ok(())) => (InstallState::Watching(d), InstallActionView::PollCancel),
            _ => (s, InstallActionView::CheckToken),
        },
        InstallState::Watching(d) => match e {
            InstallEvent::CancelPolled(true) => stop_start(d, Error::Cancelled),
            InstallEvent::CancelPolled(false) => (
                InstallState::Polling(d),
                InstallActionView::PollStatus,
            ),
            _ => (s, InstallActionView::CheckToken),
        },
        InstallState::Polling(d) => match e {
            InstallEvent::StatusPolled(Ok(Some(x))) => (
                InstallState::Exited(d, x),
                InstallActionView::PollCancel,
            ),
            InstallEvent::StatusPolled(Ok(None)) => (
                InstallState::Sleeping(d),
                InstallActionView::Sleep(POLL_MILLIS),
            ),
            InstallEvent::StatusPolled(Err(err)) => stop_start(d, Error::Process(err)),
            _ => (s, InstallActionView::CheckToken),
        },
        InstallState::Sleeping(d) => match e {
            InstallEvent::Slept => (InstallState::Watching(d), InstallActionView::PollCancel),
            _ => (s, InstallActionView::CheckToken),
        },
        InstallState::Exited(d, x) => match e {
            InstallEvent::CancelPolled(true) => stop_start(d, Error::Cancelled),
            InstallEvent::CancelPolled(false) => (
                InstallState::Done,
                install_finish_view(
                    if x.success {
                        Ok(())
                    } else {
                        Err(Error::InstallExit(x))
                    },
                ),
            ),
            _ => (s, InstallActionView::CheckToken),
        },
        InstallState::ReapingChild(cause) => match e {
            InstallEvent::StatusPolled(Err(err)) => (
                InstallState::CleanupChild(cause, err),
                InstallActionView::KillChild,
            ),
            InstallEvent::StatusPolled(Ok(None)) => (
                InstallState::KillingChild(cause),
                InstallActionView::KillChild,
            ),
            InstallEvent::StatusPolled(Ok(Some(_))) => (
                InstallState::Waiting(cause, None),
                InstallActionView::Wait,
            ),
            _ => (s, InstallActionView::CheckToken),
        },
        InstallState::KillingChild(cause) => match e {
            InstallEvent::ChildKilled(Err(err)) => (
                InstallState::CleanupChild(cause, err),
                InstallActionView::KillChild,
            ),
            InstallEvent::ChildKilled(Ok(())) => (
                InstallState::Waiting(cause, None),
                InstallActionView::Wait,
            ),
            _ => (s, InstallActionView::CheckToken),
        },
        InstallState::Arming(cause) => match e {
            InstallEvent::DeadlineSet => (
                InstallState::Reaping(cause, GroupSignal::Terminate),
                InstallActionView::PollStatus,
            ),
            _ => (s, InstallActionView::CheckToken),
        },
        InstallState::Reaping(cause, sig) => match e {
            InstallEvent::StatusPolled(Err(err)) => (
                InstallState::CleanupGroup(cause, err),
                InstallActionView::Signal(GroupSignal::Kill),
            ),
            InstallEvent::StatusPolled(Ok(_)) => (
                InstallState::Signalling(cause, sig),
                InstallActionView::Signal(sig),
            ),
            _ => (s, InstallActionView::CheckToken),
        },
        InstallState::Signalling(cause, sig) => match e {
            InstallEvent::Signalled { result: Ok(false), .. } => (
                InstallState::Waiting(cause, None),
                InstallActionView::Wait,
            ),
            InstallEvent::Signalled { result: Ok(true), .. } => (
                InstallState::Timing(cause, GroupSignal::Probe),
                InstallActionView::ReadClock,
            ),
            InstallEvent::Signalled { result: Err(err), permission_denied } => if c.darwin
                && permission_denied {
                (InstallState::PermissionWait(cause, sig, err), InstallActionView::ReadClock)
            } else {
                (InstallState::CleanupGroup(cause, err), InstallActionView::Signal(GroupSignal::Kill))
            },
            _ => (s, InstallActionView::CheckToken),
        },
        InstallState::PermissionWait(cause, sig, err) => match e {
            InstallEvent::ClockRead(false) => (
                InstallState::Timing(cause, sig),
                InstallActionView::ReadClock,
            ),
            InstallEvent::ClockRead(true) => (
                InstallState::CleanupGroup(cause, err),
                InstallActionView::Signal(GroupSignal::Kill),
            ),
            _ => (s, InstallActionView::CheckToken),
        },
        InstallState::Timing(cause, sig) => match e {
            InstallEvent::ClockRead(true) => (
                InstallState::Escalating(cause),
                InstallActionView::Signal(GroupSignal::Kill),
            ),
            InstallEvent::ClockRead(false) => (
                InstallState::Pausing(cause, sig),
                InstallActionView::Sleep(POLL_MILLIS),
            ),
            _ => (s, InstallActionView::CheckToken),
        },
        InstallState::Escalating(cause) => match e {
            InstallEvent::Signalled { result: Err(err), .. } => (
                InstallState::CleanupGroup(cause, err),
                InstallActionView::Signal(GroupSignal::Kill),
            ),
            InstallEvent::Signalled { result: Ok(_), .. } => (
                InstallState::Waiting(cause, None),
                InstallActionView::Wait,
            ),
            _ => (s, InstallActionView::CheckToken),
        },
        InstallState::Pausing(cause, sig) => match e {
            InstallEvent::Slept => (InstallState::Reaping(cause, sig), InstallActionView::PollStatus),
            _ => (s, InstallActionView::CheckToken),
        },
        InstallState::CleanupGroup(cause, err) => match e {
            InstallEvent::Signalled { .. } => (
                InstallState::CleanupChild(cause, err),
                InstallActionView::KillChild,
            ),
            _ => (s, InstallActionView::CheckToken),
        },
        InstallState::CleanupChild(cause, err) => match e {
            InstallEvent::ChildKilled(_) => (
                InstallState::Waiting(cause, Some(err)),
                InstallActionView::Wait,
            ),
            _ => (s, InstallActionView::CheckToken),
        },
        InstallState::Waiting(cause, failure) => match e {
            InstallEvent::Waited(waited) => (
                InstallState::Done,
                install_finish_view(
                    match failure {
                        Some(err) => Err(Error::Process(err)),
                        None => match waited {
                            Err(err) => Err(Error::Process(err)),
                            Ok(()) => Err(cause),
                        },
                    },
                ),
            ),
            _ => (s, InstallActionView::CheckToken),
        },
        InstallState::Done => (s, InstallActionView::CheckToken),
    }
}


/// The first step of an installation: check for cancellation.
pub fn install_start() -> (r: (InstallState, InstallAction))
    ensures
        r.0 is Starting,
        r.1 is CheckToken,
{
    (InstallState::Starting, InstallAction::CheckToken)
}

/// Whether `event` answers the action taken in `state`.
pub fn install_event_fits(state: &InstallState, event: &InstallEvent) -> (r: bool)
    ensures
        r == install_fits(*state, *event),
{
    match state {
        InstallState::Starting => matches!(event, InstallEvent::TokenChecked(_)),
        InstallState::InspectingStdin => matches!(event, InstallEvent::StdinInspected(_)),
        InstallState::Preparing(_) => matches!(event, InstallEvent::Prepared(_)),
        InstallState::BeforeSpawn(_) => matches!(event, InstallEvent::TokenChecked(_)),
        InstallState::Spawning(_) => matches!(event, InstallEvent::Spawned(_)),
        InstallState::Watching(_) => matches!(event, InstallEvent::CancelPolled(_)),
        InstallState::Polling(_) => matches!(event, InstallEvent::StatusPolled(_)),
        InstallState::Sleeping(_) => matches!(event, InstallEvent::Slept),
        InstallState::Exited(_, _) => matches!(event, InstallEvent::CancelPolled(_)),
        InstallState::ReapingChild(_) => matches!(event, InstallEvent::StatusPolled(_)),
        InstallState::KillingChild(_) => matches!(event, InstallEvent::ChildKilled(_)),
        InstallState::Arming(_) => matches!(event, InstallEvent::DeadlineSet),
        InstallState::Reaping(_, _) => matches!(event, InstallEvent::StatusPolled(_)),
        InstallState::Signalling(_, _) => matches!(event, InstallEvent::Signalled { .. }),
        InstallState::PermissionWait(_, _, _) => matches!(event, InstallEvent::ClockRead(_)),
        InstallState::Timing(_, _) => matches!(event, InstallEvent::ClockRead(_)),
        InstallState::Escalating(_) => matches!(event, InstallEvent::Signalled { .. }),
        InstallState::Pausing(_, _) => matches!(event, InstallEvent::Slept),
        InstallState::CleanupGroup(_, _) => matches!(event, InstallEvent::Signalled { .. }),
        InstallState::CleanupChild(_, _) => matches!(event, InstallEvent::ChildKilled(_)),
        InstallState::Waiting(_, _) => matches!(event, InstallEvent::Waited(_)),
        InstallState::Done => false,
    }
}

fn stop_from(detached: bool, cause: Error) -> (r: (InstallState, InstallAction))
    ensures
        (r.0, install_action_view(r.1)) == stop_start(detached, cause),
{
    if detached {
        (InstallState::Arming(cause), InstallAction::SetDeadline(GRACE_MILLIS))
    } else {
        (InstallState::ReapingChild(cause), InstallAction::PollStatus)
    }
}

/// One step of an installation: the next state and action.
pub fn install_step(config: &InstallConfig, state: InstallState, event: InstallEvent) -> (r: (
    InstallState,
    InstallAction,
))
    requires
        install_fits(state, event),
    ensures
        (r.0, install_action_view(r.1)) == install_next(*config, state, event),
{
    match state {
        InstallState::Starting => match event {
            InstallEvent::TokenChecked(Err(err)) => (InstallState::Done, InstallAction::Finish(Err(err))),
            InstallEvent::TokenChecked(Ok(())) => match check_script_request(
                config.url.as_str(),
                config.tag.as_str(),
            ) {
                Err(err) => (InstallState::Done, InstallAction::Finish(Err(err))),
                Ok(()) => (InstallState::InspectingStdin, InstallAction::InspectStdin),
            },
            _ => (InstallState::Done, InstallAction::CheckToken),
        },
        InstallState::InspectingStdin => match event {
            InstallEvent::StdinInspected(terminal) => (
                InstallState::Preparing(!terminal),
                InstallAction::PrepareStreams,
            ),
            _ => (InstallState::Done, InstallAction::CheckToken),
        },
        InstallState::Preparing(d) => match event {
            InstallEvent::Prepared(Err(err)) => (
                InstallState::Done,
                InstallAction::Finish(Err(Error::Process(err))),
            ),
            InstallEvent::Prepared(Ok(())) => (InstallState::BeforeSpawn(d), InstallAction::CheckToken),
            _ => (InstallState::Done, InstallAction::CheckToken),
        },
        InstallState::BeforeSpawn(d) => match event {
            InstallEvent::TokenChecked(Err(err)) => (InstallState::Done, InstallAction::Finish(Err(err))),
            InstallEvent::TokenChecked(Ok(())) => (
                InstallState::Spawning(d),
                InstallAction::Spawn {
                    program: String::from_str("bash"),
                    arguments: script_arguments(config.url.as_str(), config.tag.as_str()),
                    detached: d,
                },
            ),
            _ => (InstallState::Done, InstallAction::CheckToken),
        },
        InstallState::Spawning(d) => match event {
            InstallEvent::Spawned(Err(err)) => (
                InstallState::Done,
                InstallAction::Finish(Err(Error::Process(err))),
            ),
            InstallEvent::Spawned(Ok(())) => (InstallState::Watching(d), InstallAction::PollCancel),
            _ => (InstallState::Done, InstallAction::CheckToken),
        },
        InstallState::Watching(d) => match event {
            InstallEvent::CancelPolled(true) => stop_from(d, Error::Cancelled),
            InstallEvent::CancelPolled(false) => (InstallState::Polling(d), InstallAction::PollStatus),
            _ => (InstallState::Done, InstallAction::CheckToken),
        },
        InstallState::Polling(d) => match event {
            InstallEvent::StatusPolled(Ok(Some(x))) => (
                InstallState::Exited(d, x),
                InstallAction::PollCancel,
            ),
            InstallEvent::StatusPolled(Ok(None)) => (InstallState::Sleeping(d), InstallAction::Sleep(POLL_MILLIS)),
            InstallEvent::StatusPolled(Err(err)) => stop_from(d, Error::Process(err)),
            _ => (InstallState::Done, InstallAction::CheckToken),
        },
        InstallState::Sleeping(d) => match event {
            InstallEvent::Slept => (InstallState::Watching(d), InstallAction::PollCancel),
            _ => (InstallState::Done, InstallAction::CheckToken),
        },
        InstallState::Exited(d, x) => match event {
            InstallEvent::CancelPolled(true) => stop_from(d, Error::Cancelled),
            InstallEvent::CancelPolled(false) => {
                if x.success {
                    (InstallState::Done, InstallAction::Finish(Ok(())))
                } else {
                    (InstallState::Done, InstallAction::Finish(Err(Error::InstallExit(x))))
                }
            },
            _ => (InstallState::Done, InstallAction::CheckToken),
        },
        InstallState::ReapingChild(cause) => match event {
            InstallEvent::StatusPolled(Err(err)) => (
                InstallState::CleanupChild(cause, err),
                InstallAction::KillChild,
            ),
            InstallEvent::StatusPolled(Ok(None)) => (
                InstallState::KillingChild(cause),
                InstallAction::KillChild,
            ),
            InstallEvent::StatusPolled(Ok(Some(_))) => (
                InstallState::Waiting(cause, None),
                InstallAction::Wait,
            ),
            _ => (InstallState::Done, InstallAction::CheckToken),
        },
        InstallState::KillingChild(cause) => match event {
            InstallEvent::ChildKilled(Err(err)) => (
                InstallState::CleanupChild(cause, err),
                InstallAction::KillChild,
            ),
            InstallEvent::ChildKilled(Ok(())) => (InstallState::Waiting(cause, None), InstallAction::Wait),
            _ => (InstallState::Done, InstallAction::CheckToken),
        },
        InstallState::Arming(cause) => match event {
            InstallEvent::DeadlineSet => (
                InstallState::Reaping(cause, GroupSignal::Terminate),
                InstallAction::PollStatus,
            ),
            _ => (InstallState::Done, InstallAction::CheckToken),
        },
        InstallState::Reaping(cause, sig) => match event {
            InstallEvent::StatusPolled(Err(err)) => (
                InstallState::CleanupGroup(cause, err),
                InstallAction::Signal(GroupSignal::Kill),
            ),
            InstallEvent::StatusPolled(Ok(_)) => (
                InstallState::Signalling(cause, sig),
                InstallAction::Signal(sig),
            ),
            _ => (InstallState::Done, InstallAction::CheckToken),
        },
        InstallState::Signalling(cause, sig) => match event {
            InstallEvent::Signalled { result: Ok(false), .. } => (
                InstallState::Waiting(cause, None),
                InstallAction::Wait,
            ),
            InstallEvent::Signalled { result: Ok(true), .. } => (
                InstallState::Timing(cause, GroupSignal::Probe),
                InstallAction::ReadClock,
            ),
            InstallEvent::Signalled { result: Err(err), permission_denied } => {
                if config.darwin && permission_denied {
                    (InstallState::PermissionWait(cause, sig, err), InstallAction::ReadClock)
                } else {
                    (InstallState::CleanupGroup(cause, err), InstallAction::Signal(GroupSignal::Kill))
                }
            },
            _ => (InstallState::Done, InstallAction::CheckToken),
        },
        InstallState::PermissionWait(cause, sig, err) => match event {
            InstallEvent::ClockRead(false) => (InstallState::Timing(cause, sig), InstallAction::ReadClock),
            InstallEvent::ClockRead(true) => (
                InstallState::CleanupGroup(cause, err),
                InstallAction::Signal(GroupSignal::Kill),
            ),
            _ => (InstallState::Done, InstallAction::CheckToken),
        },
        InstallState::Timing(cause, sig) => match event {
            InstallEvent::ClockRead(true) => (
                InstallState::Escalating(cause),
                InstallAction::Signal(GroupSignal::Kill),
            ),
            InstallEvent::ClockRead(false) => (InstallState::Pausing(cause, sig), InstallAction::Sleep(POLL_MILLIS)),
            _ => (InstallState::Done, InstallAction::CheckToken),
        },
        InstallState::Escalating(cause) => match event {
            InstallEvent::Signalled { result: Err(err), .. } => (
                InstallState::CleanupGroup(cause, err),
                InstallAction::Signal(GroupSignal::Kill),
            ),
            InstallEvent::Signalled { result: Ok(_), .. } => (
                InstallState::Waiting(cause, None),
                InstallAction::Wait,
            ),
            _ => (InstallState::Done, InstallAction::CheckToken),
        },
        InstallState::Pausing(cause, sig) => match event {
            InstallEvent::Slept => (InstallState::Reaping(cause, sig), InstallAction::PollStatus),
            _ => (InstallState::Done, InstallAction::CheckToken),
        },
        InstallState::CleanupGroup(cause, err) => match event {
            InstallEvent::Signalled { .. } => (
                InstallState::CleanupChild(cause, err),
                InstallAction::KillChild,
            ),
            _ => (InstallState::Done, InstallAction::CheckToken),
        },
        InstallState::CleanupChild(cause, err) => match event {
            InstallEvent::ChildKilled(_) => (InstallState::Waiting(cause, Some(err)), InstallAction::Wait),
            _ => (InstallState::Done, InstallAction::CheckToken),
        },
        InstallState::Waiting(cause, failure) => match event {
            InstallEvent::Waited(waited) => {
                let outcome = match failure {
                    Some(err) => Err(Error::Process(err)),
                    None => match waited {
                        Err(err) => Err(Error::Process(err)),
                        Ok(()) => Err(cause),
                    },
                };
                (InstallState::Done, InstallAction::Finish(outcome))
            },
            _ => (InstallState::Done, InstallAction::CheckToken),
        },
        InstallState::Done => (InstallState::Done, InstallAction::CheckToken),
    }
}



// Laws of an installation.

/// The states of a run whose pipeline shares the caller's process group.
pub open spec fn without_group(s: InstallState) -> bool {
    match s {
        InstallState::Preparing(d) => !d,
        InstallState::BeforeSpawn(d) => !d,
        InstallState::Spawning(d) => !d,
        InstallState::Watching(d) => !d,
        InstallState::Polling(d) => !d,
        InstallState::Sleeping(d) => !d,
        InstallState::Exited(d, _) => !d,
        InstallState::ReapingChild(_) => true,
        InstallState::KillingChild(_) => true,
        InstallState::CleanupChild(_, _) => true,
        InstallState::Waiting(_, _) => true,
        InstallState::Done => true,
        _ => false,
    }
}

/// The states in which the pipeline is being stopped.
pub open spec fn stopping(s: InstallState) -> bool {
    ||| s is ReapingChild
    ||| s is KillingChild
    ||| s is Arming
    ||| s is Reaping
    ||| s is Signalling
    ||| s is PermissionWait
    ||| s is Timing
    ||| s is Escalating
    ||| s is Pausing
    ||| s is CleanupGroup
    ||| s is CleanupChild
    ||| s is Waiting
}

/// The states between validation and the spawn.
pub open spec fn before_spawn(s: InstallState) -> bool {
    s is InspectingStdin || s is Preparing || s is BeforeSpawn || s is Spawning
}

/// An action that ends the installation.
pub open spec fn finishes(a: InstallActionView) -> bool {
    a is Finish || a is Misconfigured || a is UnsafeTag
}

/// The actions of an installation from state `s` answered by `events`, up to
/// the first event that does not answer the action taken.
pub open spec fn install_trace(c: InstallConfig, s: InstallState, events: Seq<InstallEvent>) -> Seq<
    InstallActionView,
>
    decreases events.len(),
{
    if events.len() == 0 || !install_fits(s, events[0]) {
        Seq::empty()
    } else {
        let (next, action) = install_next(c, s, events[0]);
        seq![action] + install_trace(c, next, events.drop_first())
    }
}

/// With a terminal on stdin the pipeline shares the caller's group: every step
/// stays so and none signals a process group.
pub proof fn law_terminal_keeps_group(c: InstallConfig, s: InstallState, e: InstallEvent)
    requires
        without_group(s),
        install_fits(s, e),
    ensures
        without_group(install_next(c, s, e).0),
        !(install_next(c, s, e).1 is Signal),
{
}

proof fn lemma_without_group_trace(c: InstallConfig, s: InstallState, events: Seq<InstallEvent>)
    requires
        without_group(s),
    ensures
        forall|i: int|
            0 <= i < install_trace(c, s, events).len() ==> !(#[trigger] install_trace(
                c,
                s,
                events,
            )[i] is Signal),
    decreases events.len(),
{
    if events.len() > 0 && install_fits(s, events[0]) {
        let (next, action) = install_next(c, s, events[0]);
        law_terminal_keeps_group(c, s, events[0]);
        lemma_without_group_trace(c, next, events.drop_first());
        let trace = install_trace(c, s, events);
        assert forall|i: int| 0 <= i < trace.len() implies !(#[trigger] trace[i] is Signal) by {
            if i > 0 {
                assert(trace[i] == install_trace(c, next, events.drop_first())[i - 1]);
            }
        }
    }
}

/// When stdin is found to be a terminal, the run never signals a process group:
/// it only stops and reaps its direct child.
pub proof fn law_terminal_stdin_never_signals(c: InstallConfig, events: Seq<InstallEvent>)
    requires
        events.len() > 0,
        events[0] matches InstallEvent::StdinInspected(true),
    ensures
        forall|i: int|
            0 <= i < install_trace(c, InstallState::InspectingStdin, events).len() ==> !(
            #[trigger] install_trace(c, InstallState::InspectingStdin, events)[i] is Signal),
{
    let next = install_next(c, InstallState::InspectingStdin, events[0]).0;
    lemma_without_group_trace(c, next, events.drop_first());
    let trace = install_trace(c, InstallState::InspectingStdin, events);
    assert forall|i: int| 0 <= i < trace.len() implies !(#[trigger] trace[i] is Signal) by {
        if i > 0 {
            assert(trace[i] == install_trace(c, next, events.drop_first())[i - 1]);
        }
    }
}

/// The signal a round of termination sends is `SIGTERM` or a probe, never
/// `SIGKILL`.
pub open spec fn round_signal_ok(s: InstallState) -> bool {
    match s {
        InstallState::Reaping(_, g) => g != GroupSignal::Kill,
        InstallState::Signalling(_, g) => g != GroupSignal::Kill,
        InstallState::PermissionWait(_, g, _) => g != GroupSignal::Kill,
        InstallState::Timing(_, g) => g != GroupSignal::Kill,
        InstallState::Pausing(_, g) => g != GroupSignal::Kill,
        _ => true,
    }
}

/// An installation starts with rounds that send no `SIGKILL`, and every step
/// keeps it so.
pub proof fn law_rounds_never_kill(c: InstallConfig, s: InstallState, e: InstallEvent)
    requires
        round_signal_ok(s),
        install_fits(s, e),
    ensures
        round_signal_ok(InstallState::Starting),
        round_signal_ok(install_next(c, s, e).0),
{
}

/// Over a whole installation, when stdin is found to be a terminal no process
/// group is ever signalled: a stop only polls, kills and waits for the direct
/// child.
pub proof fn law_terminal_run_never_signals(c: InstallConfig, events: Seq<InstallEvent>)
    requires
        events.len() >= 2,
        events[1] matches InstallEvent::StdinInspected(true),
    ensures
        forall|i: int|
            0 <= i < install_trace(c, InstallState::Starting, events).len() ==> !(
            #[trigger] install_trace(c, InstallState::Starting, events)[i] is Signal),
{
    let trace = install_trace(c, InstallState::Starting, events);
    if install_fits(InstallState::Starting, events[0]) {
        let (next, action) = install_next(c, InstallState::Starting, events[0]);
        let rest = events.drop_first();
        assert(rest[0] == events[1]);
        if next is InspectingStdin {
            law_terminal_stdin_never_signals(c, rest);
        }
        assert forall|i: int| 0 <= i < trace.len() implies !(#[trigger] trace[i] is Signal) by {
            if i > 0 {
                assert(trace[i] == install_trace(c, next, rest)[i - 1]);
            }
        }
    }
}

/// `SIGKILL` goes to the group only once the grace period is over, or to clean
/// up after termination failed.
pub proof fn law_kill_at_deadline_or_cleanup(c: InstallConfig, s: InstallState, e: InstallEvent)
    requires
        round_signal_ok(s),
        install_fits(s, e),
    ensures
        install_next(c, s, e).1 == InstallActionView::Signal(GroupSignal::Kill) ==> (s is Timing
            && e matches InstallEvent::ClockRead(true)) || install_next(c, s, e).0 is CleanupGroup,
{
}

/// The installation succeeds only when the pipeline exited successfully and no
/// cancellation was seen after it exited.
pub proof fn law_success_needs_clean_exit(c: InstallConfig, s: InstallState, e: InstallEvent)
    requires
        install_fits(s, e),
    ensures
        install_next(c, s, e).1 == InstallActionView::Finish(Ok(())) ==> (s matches InstallState::Exited(_, x)
            && x.success && e matches InstallEvent::CancelPolled(false)),
{
}

/// Cancellation seen while the pipeline runs, or right after it exited, starts
/// stopping it.
pub proof fn law_cancellation_stops(c: InstallConfig, s: InstallState, e: InstallEvent)
    requires
        s is Watching || s is Exited,
        e matches InstallEvent::CancelPolled(true),
    ensures
        stopping(install_next(c, s, e).0),
{
}

/// A stop goes on until it ends by waiting for the child, and never ends in
/// success.
pub proof fn law_stop_ends_by_waiting(c: InstallConfig, s: InstallState, e: InstallEvent)
    requires
        stopping(s),
        install_fits(s, e),
    ensures
        stopping(install_next(c, s, e).0) || install_next(c, s, e).0 is Done,
        install_next(c, s, e).0 is Waiting ==> install_next(c, s, e).1 is Wait,
        finishes(install_next(c, s, e).1) ==> s is Waiting && e is Waited,
        install_next(c, s, e).1 != InstallActionView::Finish(Ok(())),
{
}

/// Over any stop, every action that ends the installation comes right after
/// waiting for the child, and none reports success.
pub proof fn law_stop_reaps_child(c: InstallConfig, s: InstallState, events: Seq<InstallEvent>)
    requires
        stopping(s) || s is Done,
    ensures
        forall|i: int|
            0 <= i < install_trace(c, s, events).len() && finishes(
                #[trigger] install_trace(c, s, events)[i],
            ) ==> (i == 0 && s is Waiting) || (i > 0 && install_trace(c, s, events)[i - 1] is Wait),
        forall|i: int|
            0 <= i < install_trace(c, s, events).len() ==> #[trigger] install_trace(c, s, events)[i]
                != InstallActionView::Finish(Ok(())),
    decreases events.len(),
{
    if events.len() > 0 && install_fits(s, events[0]) {
        let (next, action) = install_next(c, s, events[0]);
        let rest = events.drop_first();
        law_stop_ends_by_waiting(c, s, events[0]);
        law_stop_reaps_child(c, next, rest);
        let trace = install_trace(c, s, events);
        let tail = install_trace(c, next, rest);
        assert(trace == seq![action] + tail);
        assert forall|i: int|
            0 <= i < trace.len() && finishes(#[trigger] trace[i]) implies (i == 0 && s is Waiting) || (
            i > 0 && trace[i - 1] is Wait) by {
            if i > 0 {
                assert(trace[i] == tail[i - 1]);
                if i > 1 {
                    assert(trace[i - 1] == tail[i - 2]);
                }
            }
        }
        assert forall|i: int| 0 <= i < trace.len() implies #[trigger] trace[i]
            != InstallActionView::Finish(Ok(())) by {
            if i > 0 {
                assert(trace[i] == tail[i - 1]);
            }
        }
    }
}

/// The states in which a spawned pipeline exists.
pub open spec fn after_spawn(s: InstallState) -> bool {
    s is Watching || s is Polling || s is Sleeping || s is Exited || stopping(s)
}

/// The states of stopping a pipeline that runs in a group of its own.
pub open spec fn detached_stop(s: InstallState) -> bool {
    ||| s is Arming
    ||| s is Reaping
    ||| s is Signalling
    ||| s is PermissionWait
    ||| s is Timing
    ||| s is Escalating
    ||| s is Pausing
    ||| s is CleanupGroup
}

/// Actions on the child are asked for only once it was spawned, and the
/// command is spawned only after its streams were prepared: the caller always
/// holds what an action works on.
pub proof fn law_child_actions_after_spawn(c: InstallConfig, s: InstallState, e: InstallEvent)
    requires
        install_fits(s, e),
    ensures
        ({
            let a = install_next(c, s, e).1;
            a is PollStatus || a is KillChild || a is Wait || a is Signal
        }) ==> after_spawn(install_next(c, s, e).0) && (after_spawn(s) || (s is Spawning
            && e matches InstallEvent::Spawned(Ok(_)))),
        install_next(c, s, e).0 is BeforeSpawn ==> s is Preparing && e matches InstallEvent::Prepared(Ok(_)),
{
}

/// A process group is signalled only while stopping a pipeline spawned in a
/// group of its own.
pub proof fn law_group_signals_only_detached(c: InstallConfig, s: InstallState, e: InstallEvent)
    requires
        install_fits(s, e),
    ensures
        install_next(c, s, e).1 is Signal ==> detached_stop(install_next(c, s, e).0),
        detached_stop(install_next(c, s, e).0) ==> detached_stop(s) || s == InstallState::Watching(true)
            || s == InstallState::Polling(true) || s matches InstallState::Exited(true, _),
        install_next(c, s, e).1 matches InstallActionView::Spawn(_, _, d) ==> s == InstallState::BeforeSpawn(d),
{
}

proof fn lemma_cancel_poll_step(c: InstallConfig, s: InstallState, e: InstallEvent)
    requires
        install_fits(s, e),
        e matches InstallEvent::CancelPolled(true),
    ensures
        stopping(install_next(c, s, e).0),
        install_next(c, s, e).1 != InstallActionView::Finish(Ok(())),
{
}

proof fn lemma_trace_cons(c: InstallConfig, s: InstallState, events: Seq<InstallEvent>)
    requires
        events.len() > 0,
        install_fits(s, events[0]),
    ensures
        install_trace(c, s, events) == seq![install_next(c, s, events[0]).1] + install_trace(
            c,
            install_next(c, s, events[0]).0,
            events.drop_first(),
        ),
{
}

proof fn lemma_trace_len(c: InstallConfig, s: InstallState, events: Seq<InstallEvent>)
    ensures
        install_trace(c, s, events).len() <= events.len(),
    decreases events.len(),
{
    if events.len() > 0 && install_fits(s, events[0]) {
        lemma_trace_len(c, install_next(c, s, events[0]).0, events.drop_first());
    }
}

proof fn lemma_cancel_then_no_success(
    c: InstallConfig,
    s: InstallState,
    events: Seq<InstallEvent>,
    i: int,
    j: int,
)
    requires
        0 <= j <= i < install_trace(c, s, events).len(),
        events[j] matches InstallEvent::CancelPolled(true),
    ensures
        install_trace(c, s, events)[i] != InstallActionView::Finish(Ok(())),
    decreases j,
{
    assert(events.len() > 0 && install_fits(s, events[0]));
    lemma_trace_len(c, s, events);
    lemma_trace_cons(c, s, events);
    let next = install_next(c, s, events[0]).0;
    let rest = events.drop_first();
    let tail = install_trace(c, next, rest);
    if j == 0 {
        lemma_cancel_poll_step(c, s, events[0]);
        if i > 0 {
            law_stop_reaps_child(c, next, rest);
            assert(install_trace(c, s, events)[i] == tail[i - 1]);
        }
    } else {
        assert(events[j] == rest[j - 1]);
        lemma_cancel_then_no_success(c, next, rest, i - 1, j - 1);
        assert(install_trace(c, s, events)[i] == tail[i - 1]);
    }
}

/// Once a cancellation is seen while the pipeline runs, the installation never
/// reports success: event `j` answers with a cancellation, so no action from
/// then on is a successful finish.
pub proof fn law_cancelled_install_never_succeeds(
    c: InstallConfig,
    s: InstallState,
    events: Seq<InstallEvent>,
)
    ensures
        forall|i: int, j: int|
            0 <= j <= i < install_trace(c, s, events).len() && (#[trigger] events[j]
                matches InstallEvent::CancelPolled(true)) ==> #[trigger] install_trace(c, s, events)[i]
                != InstallActionView::Finish(Ok(())),
{
    assert forall|i: int, j: int|
        0 <= j <= i < install_trace(c, s, events).len() && (#[trigger] events[j]
            matches InstallEvent::CancelPolled(true)) implies #[trigger] install_trace(c, s, events)[i]
            != InstallActionView::Finish(Ok(())) by {
        lemma_cancel_then_no_success(c, s, events, i, j);
    }
}

/// What is spawned is always Bash running the fixed pipeline, with the URL and
/// tag only as its positional parameters; polls pause `POLL_MILLIS` and the
/// grace period lasts `GRACE_MILLIS`.
pub proof fn law_spawn_runs_fixed_script(c: InstallConfig, s: InstallState, e: InstallEvent)
    requires
        install_fits(s, e),
    ensures
        install_next(c, s, e).1 matches InstallActionView::Spawn(program, arguments, _) ==> program
            == script_shell() && arguments == script_arguments_spec(c.url@, c.tag@),
        install_next(c, s, e).1 matches InstallActionView::Sleep(ms) ==> ms == POLL_MILLIS,
        install_next(c, s, e).1 matches InstallActionView::SetDeadline(ms) ==> ms == GRACE_MILLIS,
{
}

/// The pipeline is spawned only right after a cancellation check that passed.
pub proof fn law_spawn_after_token_check(c: InstallConfig, s: InstallState, e: InstallEvent)
    requires
        install_fits(s, e),
    ensures
        install_next(c, s, e).1 is Spawn ==> s is BeforeSpawn && e matches InstallEvent::TokenChecked(Ok(_)),
{
}

proof fn lemma_spawn_needs_request(c: InstallConfig, s: InstallState, events: Seq<InstallEvent>)
    requires
        before_spawn(s) ==> request_ok(c),
    ensures
        forall|i: int|
            0 <= i < install_trace(c, s, events).len() && #[trigger] install_trace(c, s, events)[i] is Spawn
                ==> request_ok(c),
    decreases events.len(),
{
    if events.len() > 0 && install_fits(s, events[0]) {
        let (next, action) = install_next(c, s, events[0]);
        lemma_spawn_needs_request(c, next, events.drop_first());
        let trace = install_trace(c, s, events);
        assert forall|i: int| 0 <= i < trace.len() && #[trigger] trace[i] is Spawn implies request_ok(c) by {
            if i > 0 {
                assert(trace[i] == install_trace(c, next, events.drop_first())[i - 1]);
            }
        }
    }
}

/// An installation spawns the pipeline only for a configured URL and a safe tag.
pub proof fn law_spawn_needs_valid_request(c: InstallConfig, events: Seq<InstallEvent>)
    ensures
        forall|i: int|
            0 <= i < install_trace(c, InstallState::Starting, events).len()
                && #[trigger] install_trace(c, InstallState::Starting, events)[i] is Spawn ==> request_ok(c),
{
    lemma_spawn_needs_request(c, InstallState::Starting, events);
}

} // verus!
