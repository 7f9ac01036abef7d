//! The decisions of the update and channel-switch workflows, as state machines:
//! each step takes the current state and what the last action produced, and
//! gives the next state and action. The caller performs the actions (stream
//! output, prompts, the release lookup, the hook and the installation).
use crate::cancel::CancellationToken;
use crate::channel::{
    answered_by, cancellations_only, effective_name, first_named, has_named, law_resolve_unknown_channel,
    lookup_channel, resolve, resolve_finish_view, resolve_run, resolved_specs, specs_view,
    stable_name, Channel, ChannelSpec, ResolveActionView, ResolveEvent, ResolveState, SpecView,
};
use crate::source::Source;
use crate::store::Store;
use crate::error::{Error, Result};
use crate::semver::{normalized, update_order, Order};
use crate::text::{trim, trim_str};
use crate::version::{compare_raw, normalize_version};
use vstd::prelude::*;
use vstd::string::*;

verus! {

/// Controls update installation and confirmation.
#[derive(Clone, Copy, Debug, Default, PartialEq, Eq, Structural)]
pub struct UpdateOptions {
    /// Install even when current is equal to or newer than latest.
    pub force: bool,
    /// Skip confirmation.
    pub yes: bool,
    /// Print status only; takes precedence over force and yes.
    pub check: bool,
}

/// The current version and selected release found by a check.
#[derive(Clone, Debug, PartialEq, Eq)]
pub struct CheckResult {
    /// Normalized running version.
    pub current: String,
    /// Selected release tag, as published.
    pub latest: String,
    /// Persisted channel, or stable when unset.
    pub channel: Channel,
    /// `Greater` means an update is available.
    pub cmp: Order,
}

/// The result of a check: the normalized current version, the selected tag, the
/// channel, and how the tag stands against the current version.
pub fn check_result(version: &str, latest: String, channel: Channel) -> (r: CheckResult)
    ensures
        r.current@ == normalized(version@),
        r.latest == latest,
        r.channel == channel,
        r.cmp == update_order(version@, latest@),
{
    let current = normalize_version(version);
    let newest = normalize_version(latest.as_str());
    let cmp = compare_raw(newest.as_str(), current.as_str());
    CheckResult { current, latest, channel, cmp }
}

/// The channel a store's answer selects: an empty name reads as stable, and a
/// failed read is reported as such.
pub fn channel_from_store(read: Result<Channel>) -> (r: Result<Channel>)
    ensures
        read matches Ok(c) ==> (r matches Ok(d) && d@ == effective_name(c@)),
        read matches Err(e) ==> r == Err::<Channel, Error>(Error::ReadChannel(Box::new(e))),
{
    match read {
        Ok(c) => {
            if c.as_str().is_empty() {
                Ok(Channel::stable())
            } else {
                Ok(c)
            }
        },
        Err(e) => Err(Error::ReadChannel(Box::new(e))),
    }
}

/// The persisted channel: stable without a store, stable for an empty stored
/// name, and a failed read reported as such.
pub fn current_channel<T: Store + ?Sized>(store: Option<&T>) -> (r: Result<Channel>)
    ensures
        store is None ==> (r matches Ok(c) && c@ == stable_name()),
        store matches Some(s) ==> exists|read: Result<Channel>|
            #[trigger] call_ensures(T::channel, (s,), read) && (read matches Ok(c) ==> (r matches Ok(d)
                && d@ == effective_name(c@))) && (read matches Err(e) ==> r == Err::<Channel, Error>(
                Error::ReadChannel(Box::new(e)),
            )),
        r matches Ok(c) ==> c@.len() > 0,
        r matches Err(e) ==> e is ReadChannel,
{
    match store {
        None => Ok(Channel::stable()),
        Some(s) => channel_from_store(s.channel()),
    }
}

/// The channel name a check resolves: stable without a store, else the
/// effective name of what the store read.
pub open spec fn checked_channel<T: Store + ?Sized>(store: Option<&T>, read: Result<Channel>) -> Seq<
    char,
> {
    match store {
        None => stable_name(),
        Some(_) => match read {
            Ok(c) => effective_name(c@),
            Err(_) => Seq::empty(),
        },
    }
}

/// A check whose calls answered as given ends with `r`: the token's check
/// (`first`), the store's read when there is a store (`read`), a resolution of
/// the channel whose calls gave `events` and ended in `resolved`, and the
/// token's last check (`last`). Each failure is returned as it came, a failed
/// read wrapped in `ReadChannel`; otherwise the result is the checked release.
pub open spec fn check_run<S: Source + ?Sized, T: Store + ?Sized>(
    token: &CancellationToken,
    version: Seq<char>,
    source: &S,
    store: Option<&T>,
    specs: Seq<SpecView>,
    first: Result<()>,
    read: Result<Channel>,
    events: Seq<ResolveEvent>,
    resolved: Result<String>,
    last: Result<()>,
    r: Result<CheckResult>,
) -> bool {
    let name = checked_channel(store, read);
    &&& call_ensures(CancellationToken::check, (token,), first)
    &&& match first {
        Err(e) => r == Err::<CheckResult, Error>(e),
        Ok(()) => {
            &&& (store matches Some(s) ==> call_ensures(T::channel, (s,), read))
            &&& match (store, read) {
                (Some(_), Err(x)) => r == Err::<CheckResult, Error>(Error::ReadChannel(Box::new(x))),
                _ => {
                    &&& answered_by(source, token, events)
                    &&& cancellations_only(events)
                    &&& resolve_run(specs, name, events) == (
                        ResolveState::Done,
                        resolve_finish_view(resolved),
                    )
                    &&& match resolved {
                        Err(e) => r == Err::<CheckResult, Error>(e),
                        Ok(tag) => {
                            &&& call_ensures(CancellationToken::check, (token,), last)
                            &&& match last {
                                Err(e) => r == Err::<CheckResult, Error>(e),
                                Ok(()) => r matches Ok(res) && res.current@ == normalized(version)
                                    && res.latest == tag && res.channel@ == name && res.cmp
                                    == update_order(version, tag@),
                            }
                        },
                    }
                },
            }
        },
    }
}

/// Look up the release the persisted channel selects and compare it with the
/// running version: the check of an update, without output or installation.
pub fn check_release<S: Source + ?Sized, T: Store + ?Sized>(
    token: &CancellationToken,
    version: &str,
    source: &S,
    store: Option<&T>,
    channels: &[ChannelSpec],
) -> (r: Result<CheckResult>)
    ensures
        r matches Ok(res) ==> {
            &&& res.current@ == normalized(version@)
            &&& res.cmp == update_order(version@, res.latest@)
            &&& res.channel@.len() > 0
            &&& store is None ==> res.channel@ == stable_name()
            &&& store matches Some(s) ==> exists|read: Result<Channel>|
                #[trigger] call_ensures(T::channel, (s,), read) && (read matches Ok(c)
                    && res.channel@ == effective_name(c@))
            &&& exists|events: Seq<ResolveEvent>|
                answered_by(source, token, events) && cancellations_only(events)
                    && #[trigger] resolve_run(
                    specs_view(channels@),
                    res.channel@,
                    events,
                ) == (ResolveState::Done, ResolveActionView::Resolved(res.latest@))
        },
        store is None && !has_named(specs_view(channels@), stable_name()) ==> (r matches Err(e) && (
        e is Cancelled || e is UnknownChannel)),
        exists|
            first: Result<()>,
            read: Result<Channel>,
            events: Seq<ResolveEvent>,
            resolved: Result<String>,
            last: Result<()>,
        |
            #[trigger] check_run(
                token,
                version@,
                source,
                store,
                specs_view(channels@),
                first,
                read,
                events,
                resolved,
                last,
                r,
            ),
{
    let first = token.check();
    if let Err(e) = first {
        proof {
            assert(check_run(
                token,
                version@,
                source,
                store,
                specs_view(channels@),
                first,
                arbitrary(),
                arbitrary(),
                arbitrary(),
                arbitrary(),
                Err::<CheckResult, Error>(e),
            ));
        }
        return Err(e);
    }
    let current = current_channel(store);
    let ghost read: Result<Channel> = match store {
        Some(s) => choose|read: Result<Channel>|
            #[trigger] call_ensures(T::channel, (s,), read) && (read matches Ok(c) ==> (
            current matches Ok(d) && d@ == effective_name(c@))) && (read matches Err(e) ==> current
                == Err::<Channel, Error>(Error::ReadChannel(Box::new(e)))),
        None => arbitrary(),
    };
    let channel = match current {
        Ok(c) => c,
        Err(e) => {
            proof {
                assert(check_run(
                    token,
                    version@,
                    source,
                    store,
                    specs_view(channels@),
                    first,
                    read,
                    arbitrary(),
                    arbitrary(),
                    arbitrary(),
                    Err::<CheckResult, Error>(e),
                ));
            }
            return Err(e);
        },
    };
    assert(channel@ == checked_channel(store, read));
    assert(resolved_specs(Some(channels)) == specs_view(channels@));
    assert(effective_name(channel@) == channel@);
    let resolved = resolve(token, source, &channel, Some(channels));
    let ghost events = choose|events: Seq<ResolveEvent>|
        answered_by(source, token, events) && cancellations_only(events) && #[trigger] resolve_run(
            specs_view(channels@),
            channel@,
            events,
        ) == (ResolveState::Done, resolve_finish_view(resolved));
    proof {
        if store is None && !has_named(specs_view(channels@), stable_name()) {
            law_resolve_unknown_channel(specs_view(channels@), channel@, events);
        }
    }
    let latest = match resolved {
        Ok(t) => t,
        Err(e) => {
            proof {
                assert(check_run(
                    token,
                    version@,
                    source,
                    store,
                    specs_view(channels@),
                    first,
                    read,
                    events,
                    resolved,
                    arbitrary(),
                    Err::<CheckResult, Error>(e),
                ));
            }
            return Err(e);
        },
    };
    let ghost resolved_tag = resolved;
    let last = token.check();
    if let Err(e) = last {
        proof {
            assert(check_run(
                token,
                version@,
                source,
                store,
                specs_view(channels@),
                first,
                read,
                events,
                resolved_tag,
                last,
                Err::<CheckResult, Error>(e),
            ));
        }
        return Err(e);
    }
    let res = check_result(version, latest, channel);
    proof {
        assert(check_run(
            token,
            version@,
            source,
            store,
            specs_view(channels@),
            first,
            read,
            events,
            resolved_tag,
            last,
            Ok::<CheckResult, Error>(res),
        ));
    }
    Ok(res)
}

/// A confirmation line accepts only when it was read whole (ending in a
/// newline) and is `y` or `Y` once trimmed.
pub open spec fn accepted(line: Seq<char>, read_ok: bool) -> bool {
    &&& read_ok
    &&& line.len() > 0
    &&& line.last() == '\n'
    &&& (trim(line) == seq!['y'] || trim(line) == seq!['Y'])
}

/// Whether a confirmation answer accepts.
pub fn accepts(line: &str, read_ok: bool) -> (r: bool)
    ensures
        r == accepted(line@, read_ok),
{
    if !read_ok {
        return false;
    }
    let v = crate::text::chars_of(line);
    if v.len() == 0 || v[v.len() - 1] != '\n' {
        return false;
    }
    let t = crate::text::chars_of(trim_str(line));
    let r = t.len() == 1 && (t[0] == 'y' || t[0] == 'Y');
    proof {
        if t.len() == 1 {
            if t[0] == 'y' {
                assert(t@ =~= seq!['y']);
            }
            if t[0] == 'Y' {
                assert(t@ =~= seq!['Y']);
            }
        }
    }
    r
}

/// The status line printed when no installation follows.
pub open spec fn status_text(name: Seq<char>, r: CheckResult) -> Seq<char> {
    match r.cmp {
        Order::Equal => name + " "@ + r.current@ + " ("@ + r.channel@ + ") is up to date\n"@,
        Order::Greater => "Update available: "@ + r.current@ + " -> "@ + r.latest@ + " ("@
            + r.channel@ + " channel)\nRun '"@ + name + " self update' to upgrade\n"@,
        Order::Less => name + " "@ + r.current@ + " is newer than the latest "@ + r.channel@
            + " release "@ + r.latest@ + "\n"@,
    }
}

fn status_message(name: &str, r: &CheckResult) -> (m: String)
    ensures
        m@ == status_text(name@, *r),
{
    match r.cmp {
        Order::Equal => name.to_owned().concat(" ").concat(r.current.as_str()).concat(" (").concat(
            r.channel.as_str(),
        ).concat(") is up to date\n"),
        Order::Greater => String::from_str("Update available: ").concat(r.current.as_str()).concat(
            " -> ",
        ).concat(r.latest.as_str()).concat(" (").concat(r.channel.as_str()).concat(
            " channel)\nRun '",
        ).concat(name).concat(" self update' to upgrade\n"),
        Order::Less => name.to_owned().concat(" ").concat(r.current.as_str()).concat(
            " is newer than the latest ",
        ).concat(r.channel.as_str()).concat(" release ").concat(r.latest.as_str()).concat("\n"),
    }
}

/// The line announcing an installation.
pub open spec fn updating_text(name: Seq<char>, r: CheckResult) -> Seq<char> {
    "Updating "@ + name + " "@ + r.current@ + " -> "@ + r.latest@ + "...\n"@
}

fn updating_message(name: &str, r: &CheckResult) -> (m: String)
    ensures
        m@ == updating_text(name@, *r),
{
    String::from_str("Updating ").concat(name).concat(" ").concat(r.current.as_str()).concat(
        " -> ",
    ).concat(r.latest.as_str()).concat("...\n")
}

/// The line showing the current channel.
pub fn channel_line(channel: &Channel) -> (m: String)
    ensures
        m@ == "Current update channel: "@ + channel@ + "\n"@,
{
    String::from_str("Current update channel: ").concat(channel.as_str()).concat("\n")
}

/// What an update run was configured with.
pub struct UpdateConfig {
    /// Binary name used in messages.
    pub name: String,
    pub options: UpdateOptions,
    /// Whether an installer is configured.
    pub has_installer: bool,
    /// Whether a pre-install hook is configured.
    pub has_hook: bool,
}

/// Where an update run stands.
pub enum UpdateState {
    /// Waiting for the check's result.
    Checking,
    /// A final message is being printed; its outcome ends the run.
    Reporting,
    /// The installation announcement is being printed.
    Announcing(CheckResult),
    /// Waiting for the confirmation answer.
    Confirming(CheckResult),
    /// Cancellation checked before requiring an installer.
    PreInstaller(CheckResult),
    /// Cancellation checked before the hook.
    BeforeHook(CheckResult),
    /// The hook is running.
    Hooking(CheckResult),
    /// Cancellation checked after the hook, holding its outcome.
    AfterHook(CheckResult, Result<()>),
    /// Cancellation checked before installing the tag.
    BeforeInstall(String),
    /// The installer is running.
    Installing,
    /// Cancellation checked after installing, holding its outcome.
    AfterInstall(Result<()>),
    /// The run has finished.
    Done,
}

/// What the last action produced.
pub enum UpdateEvent {
    Checked(Result<CheckResult>),
    Printed(Result<()>),
    Answered(Result<bool>),
    TokenChecked(Result<()>),
    HookRan(Result<()>),
    Installed(Result<()>),
}

/// What the caller does next.
pub enum UpdateAction {
    /// Resolve the release (`Checked`).
    Check,
    /// Write and flush a message on the output stream (`Printed`).
    Print(String),
    /// Print the prompt and read an answer line (`Answered`).
    Confirm(String),
    /// Check the cancellation token (`TokenChecked`).
    CheckToken,
    /// Run the pre-install hook (`HookRan`).
    RunHook { current: String, latest: String },
    /// Install the tag (`Installed`).
    Install(String),
    /// The run ends with this result.
    Finish(Result<()>),
}

/// An action as the values it carries.
pub enum UpdateActionView {
    Check,
    Print(Seq<char>),
    Confirm(Seq<char>),
    CheckToken,
    RunHook(Seq<char>, Seq<char>),
    Install(Seq<char>),
    Finish(Result<()>),
}

pub open spec fn update_action_view(a: UpdateAction) -> UpdateActionView {
    match a {
        UpdateAction::Check => UpdateActionView::Check,
        UpdateAction::Print(m) => UpdateActionView::Print(m@),
        UpdateAction::Confirm(m) => UpdateActionView::Confirm(m@),
        UpdateAction::CheckToken => UpdateActionView::CheckToken,
        UpdateAction::RunHook { current, latest } => UpdateActionView::RunHook(current@, latest@),
        UpdateAction::Install(t) => UpdateActionView::Install(t@),
        UpdateAction::Finish(r) => UpdateActionView::Finish(r),
    }
}

/// Which event answers the action taken in each state.
pub open spec fn update_fits(s: UpdateState, e: UpdateEvent) -> bool {
    match s {
        UpdateState::Checking => e is Checked,
        UpdateState::Reporting => e is Printed,
        UpdateState::Announcing(_) => e is Printed,
        UpdateState::Confirming(_) => e is Answered,
        UpdateState::PreInstaller(_) => e is TokenChecked,
        UpdateState::BeforeHook(_) => e is TokenChecked,
        UpdateState::Hooking(_) => e is HookRan,
        UpdateState::AfterHook(_, _) => e is TokenChecked,
        UpdateState::BeforeInstall(_) => e is TokenChecked,
        UpdateState::Installing => e is Installed,
        UpdateState::AfterInstall(_) => e is TokenChecked,
        UpdateState::Done => false,
    }
}

pub open spec fn prompt_text() -> Seq<char> {
    "Continue? [y/N] "@
}

pub open spec fn declined_text() -> Seq<char> {
    "Update cancelled.\n"@
}

/// Only a newer release, or `force`, leads towards installation; `check`
/// always stops at the status line.
pub open spec fn reports_only(o: UpdateOptions, r: CheckResult) -> bool {
    o.check || (!o.force && r.cmp != Order::Greater)
}

/// One step of an update run.
pub open spec fn update_next(c: UpdateConfig, s: UpdateState, e: UpdateEvent) -> (
    UpdateState,
    UpdateActionView,
) {
    match s {
        UpdateState::Checking => match e {
            UpdateEvent::Checked(Err(err)) => (
                UpdateState::Done,
                UpdateActionView::Finish(Err(Error::Check(Box::new(err)))),
            ),
            UpdateEvent::Checked(Ok(r)) => if reports_only(c.options, r) {
                (UpdateState::Reporting, UpdateActionView::Print(status_text(c.name@, r)))
            } else {
                (UpdateState::Announcing(r), UpdateActionView::Print(updating_text(c.name@, r)))
            },
            _ => (s, UpdateActionView::CheckToken),
        },
        UpdateState::Reporting => match e {
            UpdateEvent::Printed(res) => (UpdateState::Done, UpdateActionView::Finish(res)),
            _ => (s, UpdateActionView::CheckToken),
        },
        UpdateState::Announcing(r) => match e {
            UpdateEvent::Printed(Err(err)) => (UpdateState::Done, UpdateActionView::Finish(Err(err))),
            UpdateEvent::Printed(Ok(())) => if c.options.yes {
                (UpdateState::PreInstaller(r), UpdateActionView::CheckToken)
            } else {
                (UpdateState::Confirming(r), UpdateActionView::Confirm(prompt_text()))
            },
            _ => (s, UpdateActionView::CheckToken),
        },
        UpdateState::Confirming(r) => match e {
            UpdateEvent::Answered(Err(err)) => (UpdateState::Done, UpdateActionView::Finish(Err(err))),
            UpdateEvent::Answered(Ok(false)) => (
                UpdateState::Reporting,
                UpdateActionView::Print(declined_text()),
            ),
            UpdateEvent::Answered(Ok(true)) => (
                UpdateState::PreInstaller(r),
                UpdateActionView::CheckToken,
            ),
            _ => (s, UpdateActionView::CheckToken),
        },
        UpdateState::PreInstaller(r) => match e {
            UpdateEvent::TokenChecked(Err(err)) => (
                UpdateState::Done,
                UpdateActionView::Finish(Err(err)),
            ),
            UpdateEvent::TokenChecked(Ok(())) => if !c.has_installer {
                (UpdateState::Done, UpdateActionView::Finish(Err(Error::NoInstaller)))
            } else if c.has_hook {
                (UpdateState::BeforeHook(r), UpdateActionView::CheckToken)
            } else {
                (UpdateState::BeforeInstall(r.latest), UpdateActionView::CheckToken)
            },
            _ => (s, UpdateActionView::CheckToken),
        },
        UpdateState::BeforeHook(r) => match e {
            UpdateEvent::TokenChecked(Err(err)) => (
                UpdateState::Done,
                UpdateActionView::Finish(Err(err)),
            ),
            UpdateEvent::TokenChecked(Ok(())) => (
                UpdateState::Hooking(r),
                UpdateActionView::RunHook(r.current@, r.latest@),
            ),
            _ => (s, UpdateActionView::CheckToken),
        },
        UpdateState::Hooking(r) => match e {
            UpdateEvent::HookRan(res) => (UpdateState::AfterHook(r, res), UpdateActionView::CheckToken),
            _ => (s, UpdateActionView::CheckToken),
        },
        UpdateState::AfterHook(r, res) => match e {
            UpdateEvent::TokenChecked(Err(err)) => (
                UpdateState::Done,
                UpdateActionView::Finish(Err(err)),
            ),
            UpdateEvent::TokenChecked(Ok(())) => match res {
                Err(err) => (
                    UpdateState::Done,
                    UpdateActionView::Finish(Err(Error::PreInstall(Box::new(err)))),
                ),
                Ok(()) => (UpdateState::BeforeInstall(r.latest), UpdateActionView::CheckToken),
            },
            _ => (s, UpdateActionView::CheckToken),
        },
        UpdateState::BeforeInstall(tag) => match e {
            UpdateEvent::TokenChecked(Err(err)) => (
                UpdateState::Done,
                UpdateActionView::Finish(Err(err)),
            ),
            UpdateEvent::TokenChecked(Ok(())) => (
                UpdateState::Installing,
                UpdateActionView::Install(tag@),
            ),
            _ => (s, UpdateActionView::CheckToken),
        },
        UpdateState::Installing => match e {
            UpdateEvent::Installed(res) => (UpdateState::AfterInstall(res), UpdateActionView::CheckToken),
            _ => (s, UpdateActionView::CheckToken),
        },
        UpdateState::AfterInstall(res) => match e {
            UpdateEvent::TokenChecked(Err(err)) => (
                UpdateState::Done,
                UpdateActionView::Finish(Err(err)),
            ),
            UpdateEvent::TokenChecked(Ok(())) => (UpdateState::Done, UpdateActionView::Finish(res)),
            _ => (s, UpdateActionView::CheckToken),
        },
        UpdateState::Done => (s, UpdateActionView::CheckToken),
    }
}

/// The first step of an update run: look up the release.
pub fn update_start() -> (r: (UpdateState, UpdateAction))
    ensures
        r.0 is Checking,
        r.1 is Check,
{
    (UpdateState::Checking, UpdateAction::Check)
}

/// Whether `event` answers the action taken in `state`.
pub fn update_event_fits(state: &UpdateState, event: &UpdateEvent) -> (r: bool)
    ensures
        r == update_fits(*state, *event),
{
    match state {
        UpdateState::Checking => matches!(event, UpdateEvent::Checked(_)),
        UpdateState::Reporting => matches!(event, UpdateEvent::Printed(_)),
        UpdateState::Announcing(_) => matches!(event, UpdateEvent::Printed(_)),
        UpdateState::Confirming(_) => matches!(event, UpdateEvent::Answered(_)),
        UpdateState::PreInstaller(_) => matches!(event, UpdateEvent::TokenChecked(_)),
        UpdateState::BeforeHook(_) => matches!(event, UpdateEvent::TokenChecked(_)),
        UpdateState::Hooking(_) => matches!(event, UpdateEvent::HookRan(_)),
        UpdateState::AfterHook(_, _) => matches!(event, UpdateEvent::TokenChecked(_)),
        UpdateState::BeforeInstall(_) => matches!(event, UpdateEvent::TokenChecked(_)),
        UpdateState::Installing => matches!(event, UpdateEvent::Installed(_)),
        UpdateState::AfterInstall(_) => matches!(event, UpdateEvent::TokenChecked(_)),
        UpdateState::Done => false,
    }
}

/// One step of an update run: the next state and action.
pub fn update_step(config: &UpdateConfig, state: UpdateState, event: UpdateEvent) -> (r: (
    UpdateState,
    UpdateAction,
))
    requires
        update_fits(state, event),
    ensures
        (r.0, update_action_view(r.1)) == update_next(*config, state, event),
{
    match state {
        UpdateState::Checking => match event {
            UpdateEvent::Checked(Err(err)) => (
                UpdateState::Done,
                UpdateAction::Finish(Err(Error::Check(Box::new(err)))),
            ),
            UpdateEvent::Checked(Ok(r)) => {
                if config.options.check || (!config.options.force && r.cmp != Order::Greater) {
                    let m = status_message(config.name.as_str(), &r);
                    (UpdateState::Reporting, UpdateAction::Print(m))
                } else {
                    let m = updating_message(config.name.as_str(), &r);
                    (UpdateState::Announcing(r), UpdateAction::Print(m))
                }
            },
            _ => (UpdateState::Done, UpdateAction::CheckToken),
        },
        UpdateState::Reporting => match event {
            UpdateEvent::Printed(res) => (UpdateState::Done, UpdateAction::Finish(res)),
            _ => (UpdateState::Done, UpdateAction::CheckToken),
        },
        UpdateState::Announcing(r) => match event {
            UpdateEvent::Printed(Err(err)) => (UpdateState::Done, UpdateAction::Finish(Err(err))),
            UpdateEvent::Printed(Ok(())) => {
                if config.options.yes {
                    (UpdateState::PreInstaller(r), UpdateAction::CheckToken)
                } else {
                    (
                        UpdateState::Confirming(r),
                        UpdateAction::Confirm(String::from_str("Continue? [y/N] ")),
                    )
                }
            },
            _ => (UpdateState::Done, UpdateAction::CheckToken),
        },
        UpdateState::Confirming(r) => match event {
            UpdateEvent::Answered(Err(err)) => (UpdateState::Done, UpdateAction::Finish(Err(err))),
            UpdateEvent::Answered(Ok(false)) => (
                UpdateState::Reporting,
                UpdateAction::Print(String::from_str("Update cancelled.\n")),
            ),
            UpdateEvent::Answered(Ok(true)) => (UpdateState::PreInstaller(r), UpdateAction::CheckToken),
            _ => (UpdateState::Done, UpdateAction::CheckToken),
        },
        UpdateState::PreInstaller(r) => match event {
            UpdateEvent::TokenChecked(Err(err)) => (UpdateState::Done, UpdateAction::Finish(Err(err))),
            UpdateEvent::TokenChecked(Ok(())) => {
                if !config.has_installer {
                    (UpdateState::Done, UpdateAction::Finish(Err(Error::NoInstaller)))
                } else if config.has_hook {
                    (UpdateState::BeforeHook(r), UpdateAction::CheckToken)
                } else {
                    (UpdateState::BeforeInstall(r.latest), UpdateAction::CheckToken)
                }
            },
            _ => (UpdateState::Done, UpdateAction::CheckToken),
        },
        UpdateState::BeforeHook(r) => match event {
            UpdateEvent::TokenChecked(Err(err)) => (UpdateState::Done, UpdateAction::Finish(Err(err))),
            UpdateEvent::TokenChecked(Ok(())) => {
                let current = r.current.clone();
                let latest = r.latest.clone();
                (UpdateState::Hooking(r), UpdateAction::RunHook { current, latest })
            },
            _ => (UpdateState::Done, UpdateAction::CheckToken),
        },
        UpdateState::Hooking(r) => match event {
            UpdateEvent::HookRan(res) => (UpdateState::AfterHook(r, res), UpdateAction::CheckToken),
            _ => (UpdateState::Done, UpdateAction::CheckToken),
        },
        UpdateState::AfterHook(r, res) => match event {
            UpdateEvent::TokenChecked(Err(err)) => (UpdateState::Done, UpdateAction::Finish(Err(err))),
            UpdateEvent::TokenChecked(Ok(())) => match res {
                Err(err) => (
                    UpdateState::Done,
                    UpdateAction::Finish(Err(Error::PreInstall(Box::new(err)))),
                ),
                Ok(()) => (UpdateState::BeforeInstall(r.latest), UpdateAction::CheckToken),
            },
            _ => (UpdateState::Done, UpdateAction::CheckToken),
        },
        UpdateState::BeforeInstall(tag) => match event {
            UpdateEvent::TokenChecked(Err(err)) => (UpdateState::Done, UpdateAction::Finish(Err(err))),
            UpdateEvent::TokenChecked(Ok(())) => (UpdateState::Installing, UpdateAction::Install(tag)),
            _ => (UpdateState::Done, UpdateAction::CheckToken),
        },
        UpdateState::Installing => match event {
            UpdateEvent::Installed(res) => (UpdateState::AfterInstall(res), UpdateAction::CheckToken),
            _ => (UpdateState::Done, UpdateAction::CheckToken),
        },
        UpdateState::AfterInstall(res) => match event {
            UpdateEvent::TokenChecked(Err(err)) => (UpdateState::Done, UpdateAction::Finish(Err(err))),
            UpdateEvent::TokenChecked(Ok(())) => (UpdateState::Done, UpdateAction::Finish(res)),
            _ => (UpdateState::Done, UpdateAction::CheckToken),
        },
        UpdateState::Done => (UpdateState::Done, UpdateAction::CheckToken),
    }
}


// Laws of the update run.

/// What holds in every state an update run reaches: check mode only reports;
/// without an installer no hook or installation is reached; without a hook no
/// hook state is reached; states on the way to installation hold a check
/// result that calls for one.
pub open spec fn update_invariant(c: UpdateConfig, s: UpdateState) -> bool {
    &&& c.options.check ==> (s is Checking || s is Reporting || s is Done)
    &&& !c.has_installer ==> !(s is BeforeHook || s is Hooking || s is AfterHook
        || s is BeforeInstall || s is Installing || s is AfterInstall)
    &&& !c.has_hook ==> !(s is BeforeHook || s is Hooking || s is AfterHook)
    &&& s matches UpdateState::Announcing(r) ==> !reports_only(c.options, r)
    &&& s matches UpdateState::Confirming(r) ==> !reports_only(c.options, r)
    &&& s matches UpdateState::PreInstaller(r) ==> !reports_only(c.options, r)
    &&& s matches UpdateState::BeforeHook(r) ==> !reports_only(c.options, r)
    &&& s matches UpdateState::Hooking(r) ==> !reports_only(c.options, r)
    &&& s matches UpdateState::AfterHook(r, _) ==> !reports_only(c.options, r)
}

/// A run starts in a state satisfying the invariant.
pub proof fn law_update_starts_well(c: UpdateConfig)
    ensures
        update_invariant(c, UpdateState::Checking),
{
}

/// Every step keeps the invariant.
pub proof fn law_update_keeps_invariant(c: UpdateConfig, s: UpdateState, e: UpdateEvent)
    requires
        update_invariant(c, s),
        update_fits(s, e),
    ensures
        update_invariant(c, update_next(c, s, e).0),
{
}

/// In check mode a run only prints its status and finishes, even with `force`
/// and `yes`.
pub proof fn law_check_only_reports(c: UpdateConfig, s: UpdateState, e: UpdateEvent)
    requires
        c.options.check,
        update_invariant(c, s),
        update_fits(s, e),
    ensures
        update_next(c, s, e).1 is Print || update_next(c, s, e).1 is Finish,
{
}

/// Without `force`, a release that is not newer than the running version is
/// only reported: the run prints its status and heads for the end.
pub proof fn law_not_newer_only_reports(c: UpdateConfig, r: CheckResult)
    requires
        !c.options.force,
        r.cmp != Order::Greater,
    ensures
        update_next(c, UpdateState::Checking, UpdateEvent::Checked(Ok(r))) == (
            UpdateState::Reporting,
            UpdateActionView::Print(status_text(c.name@, r)),
        ),
{
}

/// With `force`, and outside check mode, a checked release is always announced
/// for installation, whatever its precedence.
pub proof fn law_force_installs_any_release(c: UpdateConfig, r: CheckResult)
    requires
        c.options.force,
        !c.options.check,
    ensures
        update_next(c, UpdateState::Checking, UpdateEvent::Checked(Ok(r))).0 is Announcing,
{
}

/// The hook runs only when one is configured, and an installation only with an
/// installer, so the caller always has what an action asks for.
pub proof fn law_actions_need_configuration(c: UpdateConfig, s: UpdateState, e: UpdateEvent)
    requires
        update_invariant(c, s),
        update_fits(s, e),
    ensures
        update_next(c, s, e).1 is RunHook ==> c.has_hook,
        update_next(c, s, e).1 is Install ==> c.has_installer,
{
}

/// Without an installer neither the hook nor an installation ever runs.
pub proof fn law_no_installer_no_hook_or_install(c: UpdateConfig, s: UpdateState, e: UpdateEvent)
    requires
        !c.has_installer,
        update_invariant(c, s),
        update_fits(s, e),
    ensures
        !(update_next(c, s, e).1 is RunHook),
        !(update_next(c, s, e).1 is Install),
{
}

/// The way to installation opens only with `yes` or an accepted answer.
pub proof fn law_installation_needs_approval(c: UpdateConfig, s: UpdateState, e: UpdateEvent)
    requires
        update_fits(s, e),
    ensures
        update_next(c, s, e).0 is PreInstaller ==> (s is Announcing && c.options.yes
            && e matches UpdateEvent::Printed(Ok(_))) || (s is Confirming
            && e matches UpdateEvent::Answered(Ok(true))),
{
}

/// The tag installed is the checked release, reached only when the hook is
/// absent or succeeded, after a cancellation check that passed.
pub proof fn law_install_after_hook(c: UpdateConfig, s: UpdateState, e: UpdateEvent)
    requires
        update_fits(s, e),
    ensures
        update_next(c, s, e).0 matches UpdateState::BeforeInstall(tag) ==> (s matches UpdateState::PreInstaller(r)
            && !c.has_hook && c.has_installer && tag == r.latest) || (s matches UpdateState::AfterHook(r, res)
            && res is Ok && tag == r.latest),
        update_next(c, s, e).1 matches UpdateActionView::Install(t) ==> (s matches UpdateState::BeforeInstall(tag)
            && t == tag@ && e matches UpdateEvent::TokenChecked(Ok(_))),
{
}

/// A failed hook ends the run with that failure, before any installation.
pub proof fn law_hook_failure_stops(c: UpdateConfig, s: UpdateState, e: UpdateEvent)
    requires
        update_fits(s, e),
        s matches UpdateState::AfterHook(_, res) && res is Err,
    ensures
        update_next(c, s, e).1 is Finish,
        update_next(c, s, e).0 is Done,
{
}


/// The actions of an update run from state `s` answered by `events`, up to the
/// first event that does not answer the action taken.
pub open spec fn update_trace(c: UpdateConfig, s: UpdateState, events: Seq<UpdateEvent>) -> Seq<
    UpdateActionView,
>
    decreases events.len(),
{
    if events.len() == 0 || !update_fits(s, events[0]) {
        Seq::empty()
    } else {
        let (next, action) = update_next(c, s, events[0]);
        seq![action] + update_trace(c, next, events.drop_first())
    }
}

/// Over any run, check mode only prints and finishes: it never prompts, runs
/// the hook or installs.
pub proof fn law_check_mode_run_only_reports(
    c: UpdateConfig,
    s: UpdateState,
    events: Seq<UpdateEvent>,
)
    requires
        c.options.check,
        update_invariant(c, s),
    ensures
        forall|i: int|
            0 <= i < update_trace(c, s, events).len() ==> (#[trigger] update_trace(c, s, events)[i] is Print
                || update_trace(c, s, events)[i] is Finish),
    decreases events.len(),
{
    if events.len() > 0 && update_fits(s, events[0]) {
        let next = update_next(c, s, events[0]).0;
        law_update_keeps_invariant(c, s, events[0]);
        law_check_only_reports(c, s, events[0]);
        law_check_mode_run_only_reports(c, next, events.drop_first());
    }
}

/// Over any run without an installer, neither the hook nor an installation runs.
pub proof fn law_no_installer_run(c: UpdateConfig, s: UpdateState, events: Seq<UpdateEvent>)
    requires
        !c.has_installer,
        update_invariant(c, s),
    ensures
        forall|i: int|
            0 <= i < update_trace(c, s, events).len() ==> !(#[trigger] update_trace(c, s, events)[i] is RunHook)
                && !(update_trace(c, s, events)[i] is Install),
    decreases events.len(),
{
    if events.len() > 0 && update_fits(s, events[0]) {
        let next = update_next(c, s, events[0]).0;
        law_update_keeps_invariant(c, s, events[0]);
        law_no_installer_no_hook_or_install(c, s, events[0]);
        law_no_installer_run(c, next, events.drop_first());
    }
}

/// Event `j` is an answer that accepted.
pub open spec fn accepted_at(events: Seq<UpdateEvent>, j: int) -> bool {
    0 <= j < events.len() && events[j] matches UpdateEvent::Answered(Ok(true))
}

/// The states between approval and the end of an installation.
pub open spec fn installing_phase(s: UpdateState) -> bool {
    ||| s is PreInstaller
    ||| s is BeforeHook
    ||| s is Hooking
    ||| s is AfterHook
    ||| s is BeforeInstall
    ||| s is Installing
    ||| s is AfterInstall
}

proof fn lemma_installing_phase_entry(c: UpdateConfig, s: UpdateState, e: UpdateEvent)
    requires
        update_fits(s, e),
    ensures
        installing_phase(update_next(c, s, e).0) ==> installing_phase(s) || (s is Announcing
            && c.options.yes) || (s is Confirming && e matches UpdateEvent::Answered(Ok(true))),
        update_next(c, s, e).1 is Install ==> installing_phase(s),
{
}

/// Without `yes`, a run that has not reached installation installs only after
/// an answer that accepted.
pub proof fn law_install_follows_acceptance(c: UpdateConfig, s: UpdateState, events: Seq<UpdateEvent>)
    requires
        !c.options.yes,
        !installing_phase(s),
    ensures
        forall|i: int|
            0 <= i < update_trace(c, s, events).len() && #[trigger] update_trace(c, s, events)[i] is Install
                ==> exists|j: int| j < i && #[trigger] accepted_at(events, j),
    decreases events.len(),
{
    if events.len() > 0 && update_fits(s, events[0]) {
        let (next, action) = update_next(c, s, events[0]);
        let rest = events.drop_first();
        let trace = update_trace(c, s, events);
        lemma_installing_phase_entry(c, s, events[0]);
        assert(trace == seq![action] + update_trace(c, next, rest));
        if events[0] matches UpdateEvent::Answered(Ok(true)) {
            assert forall|i: int|
                0 <= i < trace.len() && #[trigger] trace[i] is Install implies exists|j: int| j < i && #[trigger] accepted_at(events, j) by {
                assert(i > 0);
                assert(accepted_at(events, 0));
            }
        } else {
            law_install_follows_acceptance(c, next, rest);
            assert forall|i: int|
                0 <= i < trace.len() && #[trigger] trace[i] is Install implies exists|j: int| j < i && #[trigger] accepted_at(events, j) by {
                assert(i > 0);
                assert(trace[i] == update_trace(c, next, rest)[i - 1]);
                let j = choose|j: int| j < i - 1 && #[trigger] accepted_at(rest, j);
                assert(events[j + 1] == rest[j]);
                assert(accepted_at(events, j + 1));
            }
        }
    }
}

// The channel switch.

/// Names joined with `, `.
pub open spec fn joined(names: Seq<Seq<char>>) -> Seq<char>
    decreases names.len(),
{
    if names.len() == 0 {
        Seq::empty()
    } else if names.len() == 1 {
        names[0]
    } else {
        joined(names.drop_last()) + ", "@ + names.last()
    }
}

pub open spec fn spec_names(specs: Seq<SpecView>) -> Seq<Seq<char>> {
    specs.map_values(|s: SpecView| s.name)
}

/// The configured channel names, in order, joined with `, `.
pub fn channel_choices(specs: &[ChannelSpec]) -> (r: String)
    ensures
        r@ == joined(spec_names(specs_view(specs@))),
{
    let ghost names = spec_names(specs_view(specs@));
    let mut r = String::new();
    let mut i: usize = 0;
    assert(names.take(0) =~= Seq::<Seq<char>>::empty());
    while i < specs.len()
        invariant
            i <= specs.len(),
            names == spec_names(specs_view(specs@)),
            r@ == joined(names.take(i as int)),
        decreases specs.len() - i,
    {
        assert(names.take(i + 1).drop_last() =~= names.take(i as int));
        assert(names[i as int] == specs@[i as int].name@);
        if i == 0 {
            r = String::from_str(specs[i].name.as_str());
            assert(names.take(1) =~= seq![names[0]]);
        } else {
            r = r.concat(", ").concat(specs[i].name.as_str());
        }
        i = i + 1;
    }
    assert(names.take(specs.len() as int) =~= names);
    r
}

/// What a channel switch was asked for and configured with.
pub struct SwitchConfig {
    /// Binary name used in messages.
    pub name: String,
    /// The requested channel.
    pub channel: Channel,
    /// Skip the warning and confirmation.
    pub yes: bool,
    /// Whether a store is configured.
    pub has_store: bool,
}

/// Where a channel switch stands.
pub enum SwitchState {
    /// Cancellation checked before validating the channel.
    Validating,
    /// Cancellation checked before printing the channel's warning.
    BeforeWarning,
    /// The warning is being written to the warning stream.
    Warning,
    /// Waiting for the confirmation answer.
    Confirming,
    /// Cancellation checked before saving.
    BeforeSave,
    /// The store is saving the channel.
    Saving,
    /// The success line is being printed.
    Announcing,
    /// A final message is being printed; its outcome ends the switch.
    Reporting,
    /// The switch has finished.
    Done,
}

/// What the last switch action produced.
pub enum SwitchEvent {
    TokenChecked(Result<()>),
    Warned(Result<()>),
    Answered(Result<bool>),
    Saved(Result<()>),
    Printed(Result<()>),
}

/// What the caller does next in a switch.
pub enum SwitchAction {
    /// Check the cancellation token (`TokenChecked`).
    CheckToken,
    /// Write and flush this text on the warning stream (`Warned`).
    Warn(String),
    /// Print the prompt and read an answer line (`Answered`).
    Confirm(String),
    /// Persist the channel in the store (`Saved`).
    Save(Channel),
    /// Write and flush a message on the output stream (`Printed`).
    Print(String),
    /// The switch ends with this result.
    Finish(Result<()>),
}

/// A switch action as the values it carries; a rejected channel shows as the
/// channel and choices it names.
pub enum SwitchActionView {
    CheckToken,
    Warn(Seq<char>),
    Confirm(Seq<char>),
    Save(Seq<char>),
    Print(Seq<char>),
    Rejected(Seq<char>, Seq<char>),
    Finish(Result<()>),
}

pub open spec fn finish_view(r: Result<()>) -> SwitchActionView {
    match r {
        Err(Error::InvalidChannel { channel, choices }) => SwitchActionView::Rejected(
            channel@,
            choices@,
        ),
        _ => SwitchActionView::Finish(r),
    }
}

pub open spec fn switch_action_view(a: SwitchAction) -> SwitchActionView {
    match a {
        SwitchAction::CheckToken => SwitchActionView::CheckToken,
        SwitchAction::Warn(m) => SwitchActionView::Warn(m@),
        SwitchAction::Confirm(m) => SwitchActionView::Confirm(m@),
        SwitchAction::Save(c) => SwitchActionView::Save(c@),
        SwitchAction::Print(m) => SwitchActionView::Print(m@),
        SwitchAction::Finish(r) => finish_view(r),
    }
}

/// Which event answers the action taken in each switch state.
pub open spec fn switch_fits(s: SwitchState, e: SwitchEvent) -> bool {
    match s {
        SwitchState::Validating => e is TokenChecked,
        SwitchState::BeforeWarning => e is TokenChecked,
        SwitchState::Warning => e is Warned,
        SwitchState::Confirming => e is Answered,
        SwitchState::BeforeSave => e is TokenChecked,
        SwitchState::Saving => e is Saved,
        SwitchState::Announcing => e is Printed,
        SwitchState::Reporting => e is Printed,
        SwitchState::Done => false,
    }
}

/// The warning of the first specification named like the requested channel;
/// empty when there is none.
pub open spec fn requested_warning(specs: Seq<SpecView>, channel: Seq<char>) -> Seq<char> {
    if has_named(specs, channel) {
        specs[choose|i: int| first_named(specs, channel, i)].warning
    } else {
        Seq::empty()
    }
}

/// Whether the switch warns and asks first.
pub open spec fn asks_first(specs: Seq<SpecView>, c: SwitchConfig) -> bool {
    requested_warning(specs, c.channel@).len() > 0 && !c.yes
}

pub open spec fn warning_text(warning: Seq<char>) -> Seq<char> {
    "\n"@ + warning + "\n\n"@
}

pub open spec fn switch_prompt_text(channel: Seq<char>) -> Seq<char> {
    "Switch to "@ + channel + " channel? [y/N] "@
}

pub open spec fn switched_text(channel: Seq<char>) -> Seq<char> {
    "Switched to "@ + channel + " channel\n"@
}

pub open spec fn hint_text(name: Seq<char>, channel: Seq<char>) -> Seq<char> {
    "Run '"@ + name + " self update' to get the latest "@ + channel + " build\n"@
}

/// One step of a channel switch.
pub open spec fn switch_next(specs: Seq<SpecView>, c: SwitchConfig, s: SwitchState, e: SwitchEvent) -> (
    SwitchState,
    SwitchActionView,
) {
    match s {
        SwitchState::Validating => match e {
            SwitchEvent::TokenChecked(Err(err)) => (SwitchState::Done, finish_view(Err(err))),
            SwitchEvent::TokenChecked(Ok(())) => if !has_named(specs, c.channel@) {
                (
                    SwitchState::Done,
                    SwitchActionView::Rejected(c.channel@, joined(spec_names(specs))),
                )
            } else if !c.has_store {
                (SwitchState::Done, SwitchActionView::Finish(Err(Error::NoStore)))
            } else if asks_first(specs, c) {
                (SwitchState::BeforeWarning, SwitchActionView::CheckToken)
            } else {
                (SwitchState::BeforeSave, SwitchActionView::CheckToken)
            },
            _ => (s, SwitchActionView::CheckToken),
        },
        SwitchState::BeforeWarning => match e {
            SwitchEvent::TokenChecked(Err(err)) => (SwitchState::Done, finish_view(Err(err))),
            SwitchEvent::TokenChecked(Ok(())) => (
                SwitchState::Warning,
                SwitchActionView::Warn(warning_text(requested_warning(specs, c.channel@))),
            ),
            _ => (s, SwitchActionView::CheckToken),
        },
        SwitchState::Warning => match e {
            SwitchEvent::Warned(Err(err)) => (SwitchState::Done, finish_view(Err(err))),
            SwitchEvent::Warned(Ok(())) => (
                SwitchState::Confirming,
                SwitchActionView::Confirm(switch_prompt_text(c.channel@)),
            ),
            _ => (s, SwitchActionView::CheckToken),
        },
        SwitchState::Confirming => match e {
            SwitchEvent::Answered(Err(err)) => (SwitchState::Done, finish_view(Err(err))),
            SwitchEvent::Answered(Ok(false)) => (
                SwitchState::Reporting,
                SwitchActionView::Print("Cancelled.\n"@),
            ),
            SwitchEvent::Answered(Ok(true)) => (SwitchState::BeforeSave, SwitchActionView::CheckToken),
            _ => (s, SwitchActionView::CheckToken),
        },
        SwitchState::BeforeSave => match e {
            SwitchEvent::TokenChecked(Err(err)) => (SwitchState::Done, finish_view(Err(err))),
            SwitchEvent::TokenChecked(Ok(())) => (
                SwitchState::Saving,
                SwitchActionView::Save(c.channel@),
            ),
            _ => (s, SwitchActionView::CheckToken),
        },
        SwitchState::Saving => match e {
            SwitchEvent::Saved(Err(err)) => (
                SwitchState::Done,
                SwitchActionView::Finish(Err(Error::SaveChannel(Box::new(err)))),
            ),
            SwitchEvent::Saved(Ok(())) => (
                SwitchState::Announcing,
                SwitchActionView::Print(switched_text(c.channel@)),
            ),
            _ => (s, SwitchActionView::CheckToken),
        },
        SwitchState::Announcing => match e {
            SwitchEvent::Printed(Err(err)) => (SwitchState::Done, finish_view(Err(err))),
            SwitchEvent::Printed(Ok(())) => if c.channel@ != stable_name() {
                (SwitchState::Reporting, SwitchActionView::Print(hint_text(c.name@, c.channel@)))
            } else {
                (SwitchState::Done, SwitchActionView::Finish(Ok(())))
            },
            _ => (s, SwitchActionView::CheckToken),
        },
        SwitchState::Reporting => match e {
            SwitchEvent::Printed(r) => (SwitchState::Done, finish_view(r)),
            _ => (s, SwitchActionView::CheckToken),
        },
        SwitchState::Done => (s, SwitchActionView::CheckToken),
    }
}

/// The first step of a switch: check for cancellation.
pub fn switch_start() -> (r: (SwitchState, SwitchAction))
    ensures
        r.0 is Validating,
        r.1 is CheckToken,
{
    (SwitchState::Validating, SwitchAction::CheckToken)
}

/// Whether `event` answers the action taken in `state`.
pub fn switch_event_fits(state: &SwitchState, event: &SwitchEvent) -> (r: bool)
    ensures
        r == switch_fits(*state, *event),
{
    match state {
        SwitchState::Validating => matches!(event, SwitchEvent::TokenChecked(_)),
        SwitchState::BeforeWarning => matches!(event, SwitchEvent::TokenChecked(_)),
        SwitchState::Warning => matches!(event, SwitchEvent::Warned(_)),
        SwitchState::Confirming => matches!(event, SwitchEvent::Answered(_)),
        SwitchState::BeforeSave => matches!(event, SwitchEvent::TokenChecked(_)),
        SwitchState::Saving => matches!(event, SwitchEvent::Saved(_)),
        SwitchState::Announcing => matches!(event, SwitchEvent::Printed(_)),
        SwitchState::Reporting => matches!(event, SwitchEvent::Printed(_)),
        SwitchState::Done => false,
    }
}

proof fn lemma_first_named_unique(specs: Seq<SpecView>, name: Seq<char>, i: int)
    requires
        first_named(specs, name, i),
    ensures
        (choose|k: int| first_named(specs, name, k)) == i,
{
    let k = choose|k: int| first_named(specs, name, k);
    assert(first_named(specs, name, k));
    if k < i {
        assert(specs[k].name == name);
    } else if k > i {
        assert(specs[i].name == name);
    }
}

/// The warning configured for the requested channel, when it is known.
fn warning_of(specs: &[ChannelSpec], channel: &Channel) -> (r: Option<String>)
    ensures
        !has_named(specs_view(specs@), channel@) ==> r is None,
        has_named(specs_view(specs@), channel@) ==> r is Some,
        r matches Some(w) ==> w@ == requested_warning(specs_view(specs@), channel@),
{
    match lookup_channel(specs, channel) {
        Some(s) => {
            proof {
                let i = choose|i: int| first_named(specs_view(specs@), channel@, i) && *s == specs@[i];
                lemma_first_named_unique(specs_view(specs@), channel@, i);
            }
            Some(s.warning.clone())
        },
        None => None,
    }
}

fn finish_switch(r: Result<()>) -> (a: SwitchAction)
    ensures
        switch_action_view(a) == finish_view(r),
{
    SwitchAction::Finish(r)
}

/// One step of a channel switch: the next state and action.
pub fn switch_step(
    specs: &[ChannelSpec],
    config: &SwitchConfig,
    state: SwitchState,
    event: SwitchEvent,
) -> (r: (SwitchState, SwitchAction))
    requires
        switch_fits(state, event),
    ensures
        (r.0, switch_action_view(r.1)) == switch_next(specs_view(specs@), *config, state, event),
{
    match state {
        SwitchState::Validating => match event {
            SwitchEvent::TokenChecked(Err(err)) => (SwitchState::Done, finish_switch(Err(err))),
            SwitchEvent::TokenChecked(Ok(())) => match warning_of(specs, &config.channel) {
                None => {
                    let channel = String::from_str(config.channel.as_str());
                    let choices = channel_choices(specs);
                    (
                        SwitchState::Done,
                        SwitchAction::Finish(Err(Error::InvalidChannel { channel, choices })),
                    )
                },
                Some(warning) => {
                    if !config.has_store {
                        (SwitchState::Done, SwitchAction::Finish(Err(Error::NoStore)))
                    } else if !warning.as_str().is_empty() && !config.yes {
                        (SwitchState::BeforeWarning, SwitchAction::CheckToken)
                    } else {
                        (SwitchState::BeforeSave, SwitchAction::CheckToken)
                    }
                },
            },
            _ => (SwitchState::Done, SwitchAction::CheckToken),
        },
        SwitchState::BeforeWarning => match event {
            SwitchEvent::TokenChecked(Err(err)) => (SwitchState::Done, finish_switch(Err(err))),
            SwitchEvent::TokenChecked(Ok(())) => {
                let warning = match warning_of(specs, &config.channel) {
                    Some(w) => w,
                    None => String::new(),
                };
                let text = String::from_str("\n").concat(warning.as_str()).concat("\n\n");
                (SwitchState::Warning, SwitchAction::Warn(text))
            },
            _ => (SwitchState::Done, SwitchAction::CheckToken),
        },
        SwitchState::Warning => match event {
            SwitchEvent::Warned(Err(err)) => (SwitchState::Done, finish_switch(Err(err))),
            SwitchEvent::Warned(Ok(())) => {
                let prompt = String::from_str("Switch to ").concat(config.channel.as_str()).concat(
                    " channel? [y/N] ",
                );
                (SwitchState::Confirming, SwitchAction::Confirm(prompt))
            },
            _ => (SwitchState::Done, SwitchAction::CheckToken),
        },
        SwitchState::Confirming => match event {
            SwitchEvent::Answered(Err(err)) => (SwitchState::Done, finish_switch(Err(err))),
            SwitchEvent::Answered(Ok(false)) => (
                SwitchState::Reporting,
                SwitchAction::Print(String::from_str("Cancelled.\n")),
            ),
            SwitchEvent::Answered(Ok(true)) => (SwitchState::BeforeSave, SwitchAction::CheckToken),
            _ => (SwitchState::Done, SwitchAction::CheckToken),
        },
        SwitchState::BeforeSave => match event {
            SwitchEvent::TokenChecked(Err(err)) => (SwitchState::Done, finish_switch(Err(err))),
            SwitchEvent::TokenChecked(Ok(())) => (
                SwitchState::Saving,
                SwitchAction::Save(config.channel.clone()),
            ),
            _ => (SwitchState::Done, SwitchAction::CheckToken),
        },
        SwitchState::Saving => match event {
            SwitchEvent::Saved(Err(err)) => (
                SwitchState::Done,
                SwitchAction::Finish(Err(Error::SaveChannel(Box::new(err)))),
            ),
            SwitchEvent::Saved(Ok(())) => {
                let m = String::from_str("Switched to ").concat(config.channel.as_str()).concat(
                    " channel\n",
                );
                (SwitchState::Announcing, SwitchAction::Print(m))
            },
            _ => (SwitchState::Done, SwitchAction::CheckToken),
        },
        SwitchState::Announcing => match event {
            SwitchEvent::Printed(Err(err)) => (SwitchState::Done, finish_switch(Err(err))),
            SwitchEvent::Printed(Ok(())) => {
                let stable = Channel::stable();
                if config.channel != stable {
                    let m = String::from_str("Run '").concat(config.name.as_str()).concat(
                        " self update' to get the latest ",
                    ).concat(config.channel.as_str()).concat(" build\n");
                    (SwitchState::Reporting, SwitchAction::Print(m))
                } else {
                    (SwitchState::Done, SwitchAction::Finish(Ok(())))
                }
            },
            _ => (SwitchState::Done, SwitchAction::CheckToken),
        },
        SwitchState::Reporting => match event {
            SwitchEvent::Printed(r) => (SwitchState::Done, finish_switch(r)),
            _ => (SwitchState::Done, SwitchAction::CheckToken),
        },
        SwitchState::Done => (SwitchState::Done, SwitchAction::CheckToken),
    }
}


// Laws of the channel switch.

/// An unknown channel is rejected, naming the configured choices, before any
/// output or save.
pub proof fn law_switch_rejects_unknown(specs: Seq<SpecView>, c: SwitchConfig)
    requires
        !has_named(specs, c.channel@),
    ensures
        switch_next(specs, c, SwitchState::Validating, SwitchEvent::TokenChecked(Ok(()))) == (
            SwitchState::Done,
            SwitchActionView::Rejected(c.channel@, joined(spec_names(specs))),
        ),
{
}

/// Without a store, a known channel fails with `NoStore` before any output or save.
pub proof fn law_switch_needs_store(specs: Seq<SpecView>, c: SwitchConfig)
    requires
        has_named(specs, c.channel@),
        !c.has_store,
    ensures
        switch_next(specs, c, SwitchState::Validating, SwitchEvent::TokenChecked(Ok(()))) == (
            SwitchState::Done,
            SwitchActionView::Finish(Err(Error::NoStore)),
        ),
{
}

/// Saving is reached only directly when the channel has no warning (or `yes`
/// was given), or after an accepted answer.
pub proof fn law_switch_save_needs_approval(
    specs: Seq<SpecView>,
    c: SwitchConfig,
    s: SwitchState,
    e: SwitchEvent,
)
    requires
        switch_fits(s, e),
    ensures
        switch_next(specs, c, s, e).0 is BeforeSave ==> (s is Validating && has_named(
            specs,
            c.channel@,
        ) && c.has_store && !asks_first(specs, c)) || (s is Confirming
            && e matches SwitchEvent::Answered(Ok(true))),
{
}

/// The states of a switch that only a configured store reaches.
pub open spec fn switch_invariant(c: SwitchConfig, s: SwitchState) -> bool {
    (s is BeforeWarning || s is Warning || s is Confirming || s is BeforeSave || s is Saving
        || s is Announcing) ==> c.has_store
}

/// A switch starts in a state satisfying its invariant, every step keeps it,
/// and a save is asked for only with a store configured.
pub proof fn law_switch_saves_only_with_store(
    specs: Seq<SpecView>,
    c: SwitchConfig,
    s: SwitchState,
    e: SwitchEvent,
)
    requires
        switch_invariant(c, s),
        switch_fits(s, e),
    ensures
        switch_invariant(c, SwitchState::Validating),
        switch_invariant(c, switch_next(specs, c, s, e).0),
        switch_next(specs, c, s, e).1 is Save ==> c.has_store,
{
}

/// The store saves exactly the requested channel, right after a cancellation
/// check that passed.
pub proof fn law_switch_saves_requested(
    specs: Seq<SpecView>,
    c: SwitchConfig,
    s: SwitchState,
    e: SwitchEvent,
)
    requires
        switch_fits(s, e),
    ensures
        switch_next(specs, c, s, e).1 matches SwitchActionView::Save(ch) ==> ch == c.channel@
            && s is BeforeSave && e matches SwitchEvent::TokenChecked(Ok(_)),
{
}

/// The success message follows a successful save, never precedes it.
pub proof fn law_switch_announces_after_save(
    specs: Seq<SpecView>,
    c: SwitchConfig,
    s: SwitchState,
    e: SwitchEvent,
)
    requires
        switch_fits(s, e),
    ensures
        switch_next(specs, c, s, e).0 is Announcing ==> s is Saving && e matches SwitchEvent::Saved(
            Ok(_),
        ),
{
}


/// The actions of a switch from state `s` answered by `events`, up to the first
/// event that does not answer the action taken.
pub open spec fn switch_trace(
    specs: Seq<SpecView>,
    c: SwitchConfig,
    s: SwitchState,
    events: Seq<SwitchEvent>,
) -> Seq<SwitchActionView>
    decreases events.len(),
{
    if events.len() == 0 || !switch_fits(s, events[0]) {
        Seq::empty()
    } else {
        let (next, action) = switch_next(specs, c, s, events[0]);
        seq![action] + switch_trace(specs, c, next, events.drop_first())
    }
}

proof fn lemma_switch_trace_cons(
    specs: Seq<SpecView>,
    c: SwitchConfig,
    s: SwitchState,
    events: Seq<SwitchEvent>,
)
    requires
        switch_trace(specs, c, s, events).len() > 0,
    ensures
        events.len() > 0,
        switch_fits(s, events[0]),
        switch_trace(specs, c, s, events) == seq![switch_next(specs, c, s, events[0]).1]
            + switch_trace(specs, c, switch_next(specs, c, s, events[0]).0, events.drop_first()),
{
}

proof fn lemma_switch_trace_len(
    specs: Seq<SpecView>,
    c: SwitchConfig,
    s: SwitchState,
    events: Seq<SwitchEvent>,
)
    ensures
        switch_trace(specs, c, s, events).len() <= events.len(),
    decreases events.len(),
{
    if events.len() > 0 && switch_fits(s, events[0]) {
        lemma_switch_trace_len(specs, c, switch_next(specs, c, s, events[0]).0, events.drop_first());
    }
}

proof fn lemma_switch_failed_check_ends(
    specs: Seq<SpecView>,
    c: SwitchConfig,
    s: SwitchState,
    e: SwitchEvent,
)
    requires
        switch_fits(s, e),
        e matches SwitchEvent::TokenChecked(Err(_)),
    ensures
        switch_next(specs, c, s, e).0 is Done,
{
}

proof fn lemma_switch_save_at(
    specs: Seq<SpecView>,
    c: SwitchConfig,
    s: SwitchState,
    events: Seq<SwitchEvent>,
    i: int,
)
    requires
        0 <= i < switch_trace(specs, c, s, events).len(),
        switch_trace(specs, c, s, events)[i] is Save,
    ensures
        switch_trace(specs, c, s, events)[i] == SwitchActionView::Save(c.channel@),
        events[i] matches SwitchEvent::TokenChecked(Ok(_)),
    decreases i,
{
    lemma_switch_trace_len(specs, c, s, events);
    lemma_switch_trace_cons(specs, c, s, events);
    let next = switch_next(specs, c, s, events[0]).0;
    let rest = events.drop_first();
    if i == 0 {
        law_switch_saves_requested(specs, c, s, events[0]);
    } else {
        assert(switch_trace(specs, c, s, events)[i] == switch_trace(specs, c, next, rest)[i - 1]);
        lemma_switch_save_at(specs, c, next, rest, i - 1);
        assert(events[i] == rest[i - 1]);
    }
}

proof fn lemma_switch_check_failure_at(
    specs: Seq<SpecView>,
    c: SwitchConfig,
    s: SwitchState,
    events: Seq<SwitchEvent>,
    i: int,
)
    requires
        0 <= i < switch_trace(specs, c, s, events).len(),
        events[i] matches SwitchEvent::TokenChecked(Err(_)),
    ensures
        switch_trace(specs, c, s, events).len() == i + 1,
    decreases i,
{
    lemma_switch_trace_len(specs, c, s, events);
    lemma_switch_trace_cons(specs, c, s, events);
    let next = switch_next(specs, c, s, events[0]).0;
    let rest = events.drop_first();
    if i == 0 {
        lemma_switch_failed_check_ends(specs, c, s, events[0]);
        assert(switch_trace(specs, c, next, rest).len() == 0);
    } else {
        assert(events[i] == rest[i - 1]);
        lemma_switch_check_failure_at(specs, c, next, rest, i - 1);
    }
}

/// Over a whole switch, the store is asked to save only the requested
/// channel, each time right after a cancellation check that passed, and a
/// failed cancellation check ends the switch at once, so nothing is saved
/// after it.
pub proof fn law_switch_run_saves_after_passing_check(
    specs: Seq<SpecView>,
    c: SwitchConfig,
    s: SwitchState,
    events: Seq<SwitchEvent>,
)
    ensures
        forall|i: int|
            0 <= i < switch_trace(specs, c, s, events).len() && #[trigger] switch_trace(
                specs,
                c,
                s,
                events,
            )[i] is Save ==> switch_trace(specs, c, s, events)[i] == SwitchActionView::Save(
                c.channel@,
            ) && events[i] matches SwitchEvent::TokenChecked(Ok(_)),
        forall|i: int|
            0 <= i < switch_trace(specs, c, s, events).len() && (#[trigger] events[i]
                matches SwitchEvent::TokenChecked(Err(_))) ==> switch_trace(specs, c, s, events).len()
                == i + 1,
{
    assert forall|i: int|
        0 <= i < switch_trace(specs, c, s, events).len() && #[trigger] switch_trace(
            specs,
            c,
            s,
            events,
        )[i] is Save implies switch_trace(specs, c, s, events)[i] == SwitchActionView::Save(
        c.channel@,
    ) && events[i] matches SwitchEvent::TokenChecked(Ok(_)) by {
        lemma_switch_save_at(specs, c, s, events, i);
    }
    assert forall|i: int|
        0 <= i < switch_trace(specs, c, s, events).len() && (#[trigger] events[i]
            matches SwitchEvent::TokenChecked(Err(_))) implies switch_trace(specs, c, s, events).len()
            == i + 1 by {
        lemma_switch_check_failure_at(specs, c, s, events, i);
    }
}

/// Switch event `j` is an answer that accepted.
pub open spec fn switch_accepted_at(events: Seq<SwitchEvent>, j: int) -> bool {
    0 <= j < events.len() && events[j] matches SwitchEvent::Answered(Ok(true))
}

/// The states before the save in which a warned switch still awaits its answer.
pub open spec fn awaiting_approval(s: SwitchState) -> bool {
    s is Validating || s is BeforeWarning || s is Warning || s is Confirming
}

/// When the channel has a warning and `yes` was not given, any save in a run
/// follows an answer that accepted.
pub proof fn law_warned_switch_saves_after_acceptance(
    specs: Seq<SpecView>,
    c: SwitchConfig,
    s: SwitchState,
    events: Seq<SwitchEvent>,
)
    requires
        asks_first(specs, c),
        awaiting_approval(s),
    ensures
        forall|i: int|
            0 <= i < switch_trace(specs, c, s, events).len() && #[trigger] switch_trace(
                specs,
                c,
                s,
                events,
            )[i] is Save ==> exists|j: int| j < i && #[trigger] switch_accepted_at(events, j),
    decreases events.len(),
{
    if events.len() > 0 && switch_fits(s, events[0]) {
        let (next, action) = switch_next(specs, c, s, events[0]);
        let rest = events.drop_first();
        let trace = switch_trace(specs, c, s, events);
        assert(trace == seq![action] + switch_trace(specs, c, next, rest));
        if events[0] matches SwitchEvent::Answered(Ok(true)) {
            assert forall|i: int|
                0 <= i < trace.len() && #[trigger] trace[i] is Save implies exists|j: int|
                j < i && #[trigger] switch_accepted_at(events, j) by {
                assert(i > 0);
                assert(switch_accepted_at(events, 0));
            }
        } else if awaiting_approval(next) {
            law_warned_switch_saves_after_acceptance(specs, c, next, rest);
            assert forall|i: int|
                0 <= i < trace.len() && #[trigger] trace[i] is Save implies exists|j: int|
                j < i && #[trigger] switch_accepted_at(events, j) by {
                assert(i > 0);
                assert(trace[i] == switch_trace(specs, c, next, rest)[i - 1]);
                let j = choose|j: int| j < i - 1 && #[trigger] switch_accepted_at(rest, j);
                assert(events[j + 1] == rest[j]);
                assert(switch_accepted_at(events, j + 1));
            }
        } else {
            lemma_switch_ends_without_save(specs, c, next, rest);
            assert forall|i: int|
                0 <= i < trace.len() && #[trigger] trace[i] is Save implies exists|j: int|
                j < i && #[trigger] switch_accepted_at(events, j) by {
                if i > 0 {
                    assert(trace[i] == switch_trace(specs, c, next, rest)[i - 1]);
                }
            }
        }
    }
}

/// From a state that is neither awaiting approval nor about to save, no save follows.
proof fn lemma_switch_ends_without_save(
    specs: Seq<SpecView>,
    c: SwitchConfig,
    s: SwitchState,
    events: Seq<SwitchEvent>,
)
    requires
        s is Done || s is Reporting,
    ensures
        forall|i: int|
            0 <= i < switch_trace(specs, c, s, events).len() ==> !(#[trigger] switch_trace(
                specs,
                c,
                s,
                events,
            )[i] is Save),
    decreases events.len(),
{
    if events.len() > 0 && switch_fits(s, events[0]) {
        let (next, action) = switch_next(specs, c, s, events[0]);
        lemma_switch_ends_without_save(specs, c, next, events.drop_first());
    }
}

} // verus!
