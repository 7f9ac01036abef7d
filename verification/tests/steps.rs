//! The installation and request steps, and the release check.
use selfupdate::channel::{resolve_start, resolve_step, ResolveAction, ResolveEvent};
use selfupdate::source::{
    fetch_event_fits, fetch_start, fetch_step, FetchAction, FetchConfig, FetchEvent,
};
use selfupdate::supervise::{
    install_event_fits, install_start, install_step, may_signal_group, ExitReport, GroupSignal,
    InstallAction, InstallConfig, InstallEvent, InstallState,
};
use selfupdate::{
    check_release, current_channel, CancellationToken, Channel, ChannelSpec, Error, MemStore,
    Order, Release, Result, Source, Store,
};
use std::io;

/// Plays `events` against the installation steps and returns the actions taken,
/// including the first one.
fn run_install(config: &InstallConfig, events: Vec<InstallEvent>) -> (Vec<InstallAction>, InstallState) {
    let (mut state, first) = install_start();
    let mut actions = vec![first];
    for event in events {
        assert!(install_event_fits(&state, &event));
        let (next, action) = install_step(config, state, event);
        state = next;
        actions.push(action);
    }
    (actions, state)
}

fn config(url: &str, tag: &str, darwin: bool) -> InstallConfig {
    InstallConfig {
        url: url.into(),
        tag: tag.into(),
        darwin,
    }
}

fn exited(success: bool, code: Option<i32>, text: &str) -> InstallEvent {
    InstallEvent::StatusPolled(Ok(Some(ExitReport {
        success,
        code,
        text: text.into(),
    })))
}

fn spawn_events(terminal: bool) -> Vec<InstallEvent> {
    vec![
        InstallEvent::TokenChecked(Ok(())),
        InstallEvent::StdinInspected(terminal),
        InstallEvent::Prepared(Ok(())),
        InstallEvent::TokenChecked(Ok(())),
        InstallEvent::Spawned(Ok(())),
    ]
}

fn kind(action: &InstallAction) -> String {
    match action {
        InstallAction::CheckToken => "token".into(),
        InstallAction::InspectStdin => "stdin".into(),
        InstallAction::PrepareStreams => "prepare".into(),
        InstallAction::Spawn { detached, .. } => format!("spawn:{detached}"),
        InstallAction::PollCancel => "cancel?".into(),
        InstallAction::PollStatus => "status?".into(),
        InstallAction::Sleep(ms) => {
            assert_eq!(*ms, 25);
            "sleep".into()
        }
        InstallAction::SetDeadline(ms) => {
            assert_eq!(*ms, 5000);
            "deadline".into()
        }
        InstallAction::Signal(GroupSignal::Terminate) => "TERM".into(),
        InstallAction::Signal(GroupSignal::Probe) => "probe".into(),
        InstallAction::Signal(GroupSignal::Kill) => "KILL".into(),
        InstallAction::ReadClock => "clock".into(),
        InstallAction::KillChild => "kill-child".into(),
        InstallAction::Wait => "wait".into(),
        InstallAction::Finish(Ok(())) => "ok".into(),
        InstallAction::Finish(Err(e)) => format!("err:{}", e.to_string()),
    }
}

fn kinds(actions: &[InstallAction]) -> Vec<String> {
    actions.iter().map(kind).collect()
}

#[test]
fn install_runs_until_the_pipeline_succeeds() {
    let c = config("https://example.com/install.sh", "v1.2.3", false);
    let mut events = spawn_events(false);
    events.extend([
        InstallEvent::CancelPolled(false),
        InstallEvent::StatusPolled(Ok(None)),
        InstallEvent::Slept,
        InstallEvent::CancelPolled(false),
        exited(true, Some(0), "exit status: 0"),
        InstallEvent::CancelPolled(false),
    ]);
    let (actions, state) = run_install(&c, events);
    assert_eq!(
        kinds(&actions),
        [
            "token", "stdin", "prepare", "token", "spawn:true", "cancel?", "status?", "sleep",
            "cancel?", "status?", "cancel?", "ok"
        ]
    );
    assert!(matches!(state, InstallState::Done));
}

#[test]
fn install_reports_a_failed_exit() {
    let c = config("https://example.com/install.sh", "v1.2.3", false);
    let mut events = spawn_events(true);
    events.extend([
        InstallEvent::CancelPolled(false),
        exited(false, Some(3), "exit status: 3"),
        InstallEvent::CancelPolled(false),
    ]);
    let (actions, _) = run_install(&c, events);
    assert_eq!(kinds(&actions)[4], "spawn:false");
    match actions.last() {
        Some(InstallAction::Finish(Err(Error::InstallExit(status)))) => {
            assert!(!status.success());
            assert_eq!(status.code(), Some(3));
            assert_eq!(status.text, "exit status: 3")
        }
        _ => panic!("expected the exit status"),
    }
}

#[test]
fn install_refuses_bad_requests_before_spawning() {
    let (actions, _) = run_install(
        &config("", "v1.2.3", false),
        vec![InstallEvent::TokenChecked(Ok(()))],
    );
    assert!(matches!(
        actions.last(),
        Some(InstallAction::Finish(Err(Error::Configuration(m)))) if m == "ScriptInstaller URL is empty"
    ));
    for tag in ["", "-v1", "v1;rm", "v1 2", "$(x)"] {
        let (actions, _) = run_install(
            &config("https://example.com/i.sh", tag, false),
            vec![InstallEvent::TokenChecked(Ok(()))],
        );
        assert!(matches!(
            actions.last(),
            Some(InstallAction::Finish(Err(Error::UnsafeTag(t)))) if t == tag
        ));
    }
    let (actions, _) = run_install(
        &config("https://example.com/i.sh", "v1", false),
        vec![InstallEvent::TokenChecked(Err(Error::Cancelled))],
    );
    assert_eq!(kinds(&actions), ["token", "err:selfupdate: cancelled"]);
    let mut events = spawn_events(false);
    events[3] = InstallEvent::TokenChecked(Err(Error::Cancelled));
    events.truncate(4);
    let (actions, _) = run_install(&config("https://example.com/i.sh", "v1", false), events);
    assert_eq!(
        kinds(&actions),
        ["token", "stdin", "prepare", "token", "err:selfupdate: cancelled"]
    );
    let (actions, _) = run_install(
        &config("https://example.com/i.sh", "v1", false),
        vec![
            InstallEvent::TokenChecked(Ok(())),
            InstallEvent::StdinInspected(false),
            InstallEvent::Prepared(Err(io::Error::other("bad stream"))),
        ],
    );
    assert!(matches!(actions.last(), Some(InstallAction::Finish(Err(Error::Process(_))))));
}

#[test]
fn cancellation_stops_a_detached_group_with_a_grace_period() {
    let c = config("https://example.com/i.sh", "v1.2.3", false);
    let mut events = spawn_events(false);
    events.extend([
        InstallEvent::CancelPolled(true),
        InstallEvent::DeadlineSet,
        InstallEvent::StatusPolled(Ok(None)),
        InstallEvent::Signalled {
            result: Ok(true),
            permission_denied: false,
        },
        InstallEvent::ClockRead(false),
        InstallEvent::Slept,
        exited(false, None, "signal: 15"),
        InstallEvent::Signalled {
            result: Ok(false),
            permission_denied: false,
        },
        InstallEvent::Waited(Ok(())),
    ]);
    let (actions, _) = run_install(&c, events);
    assert_eq!(
        kinds(&actions)[5..],
        [
            "cancel?", "deadline", "status?", "TERM", "clock", "sleep", "status?", "probe", "wait",
            "err:selfupdate: cancelled"
        ]
    );
}

#[test]
fn cancellation_escalates_to_kill_after_the_deadline() {
    let c = config("https://example.com/i.sh", "v1.2.3", false);
    let mut events = spawn_events(false);
    events.extend([
        InstallEvent::CancelPolled(false),
        exited(true, Some(0), "exit status: 0"),
        InstallEvent::CancelPolled(true),
        InstallEvent::DeadlineSet,
        InstallEvent::StatusPolled(Ok(None)),
        InstallEvent::Signalled {
            result: Ok(true),
            permission_denied: false,
        },
        InstallEvent::ClockRead(true),
        InstallEvent::Signalled {
            result: Ok(true),
            permission_denied: false,
        },
        InstallEvent::Waited(Ok(())),
    ]);
    let (actions, _) = run_install(&c, events);
    assert_eq!(
        kinds(&actions)[7..],
        ["cancel?", "deadline", "status?", "TERM", "clock", "KILL", "wait", "err:selfupdate: cancelled"]
    );
}

#[test]
fn terminal_installs_stop_only_the_child() {
    let c = config("https://example.com/i.sh", "v1.2.3", false);
    let mut events = spawn_events(true);
    events.extend([
        InstallEvent::CancelPolled(true),
        InstallEvent::StatusPolled(Ok(None)),
        InstallEvent::ChildKilled(Ok(())),
        InstallEvent::Waited(Ok(())),
    ]);
    let (actions, _) = run_install(&c, events);
    assert_eq!(
        kinds(&actions)[5..],
        ["cancel?", "status?", "kill-child", "wait", "err:selfupdate: cancelled"]
    );
}

#[test]
fn failed_termination_cleans_up_and_reports_the_failure() {
    let c = config("https://example.com/i.sh", "v1.2.3", false);
    let mut events = spawn_events(false);
    events.extend([
        InstallEvent::CancelPolled(true),
        InstallEvent::DeadlineSet,
        InstallEvent::StatusPolled(Ok(None)),
        InstallEvent::Signalled {
            result: Err(io::Error::other("not permitted")),
            permission_denied: true,
        },
        InstallEvent::Signalled {
            result: Ok(true),
            permission_denied: false,
        },
        InstallEvent::ChildKilled(Err(io::Error::other("gone"))),
        InstallEvent::Waited(Ok(())),
    ]);
    let (actions, _) = run_install(&c, events);
    assert_eq!(
        kinds(&actions)[5..10],
        ["cancel?", "deadline", "status?", "TERM", "KILL"]
    );
    assert_eq!(kind(&actions[10]), "kill-child");
    assert_eq!(kind(&actions[11]), "wait");
    match actions.last() {
        Some(InstallAction::Finish(Err(Error::Process(e)))) => assert_eq!(e.to_string(), "not permitted"),
        _ => panic!("expected the termination failure"),
    }
}

#[test]
fn darwin_permission_errors_wait_within_the_grace_period() {
    let c = config("https://example.com/i.sh", "v1.2.3", true);
    let mut events = spawn_events(false);
    events.extend([
        InstallEvent::CancelPolled(true),
        InstallEvent::DeadlineSet,
        InstallEvent::StatusPolled(Ok(None)),
        InstallEvent::Signalled {
            result: Err(io::Error::other("not permitted")),
            permission_denied: true,
        },
        InstallEvent::ClockRead(false),
        InstallEvent::ClockRead(false),
        InstallEvent::Slept,
        InstallEvent::StatusPolled(Ok(None)),
        InstallEvent::Signalled {
            result: Ok(false),
            permission_denied: false,
        },
        InstallEvent::Waited(Ok(())),
    ]);
    let (actions, _) = run_install(&c, events);
    assert_eq!(
        kinds(&actions)[5..],
        [
            "cancel?", "deadline", "status?", "TERM", "clock", "clock", "sleep", "status?", "TERM",
            "wait", "err:selfupdate: cancelled"
        ]
    );
}

#[test]
fn a_poll_failure_stops_the_pipeline_and_is_reported() {
    let c = config("https://example.com/i.sh", "v1.2.3", false);
    let mut events = spawn_events(true);
    events.extend([
        InstallEvent::CancelPolled(false),
        InstallEvent::StatusPolled(Err(io::Error::other("wait failed"))),
        InstallEvent::StatusPolled(Ok(Some(ExitReport {
            success: true,
            code: Some(0),
            text: "exit status: 0".into(),
        }))),
        InstallEvent::Waited(Ok(())),
    ]);
    let (actions, _) = run_install(&c, events);
    assert_eq!(kinds(&actions)[5..9], ["cancel?", "status?", "status?", "wait"]);
    match actions.last() {
        Some(InstallAction::Finish(Err(Error::Process(e)))) => assert_eq!(e.to_string(), "wait failed"),
        _ => panic!("expected the poll failure"),
    }
}

#[test]
fn the_callers_group_is_never_signalled() {
    assert!(may_signal_group(4242, 100));
    assert!(!may_signal_group(100, 100));
    assert!(!may_signal_group(0, 100));
    assert!(!may_signal_group(-5, 100));
}

fn run_fetch(events: Vec<FetchEvent>) -> Vec<FetchAction> {
    let (mut state, first) = fetch_start("/repos/acme/tool/releases?per_page=100".into());
    let mut actions = vec![first];
    for event in events {
        assert!(fetch_event_fits(&state, &event));
        let config = FetchConfig {
            bearer: Some("secret".into()),
        };
        let (next, action) = fetch_step(&config, state, event);
        state = next;
        actions.push(action);
    }
    actions
}

fn fetch_kind(action: &FetchAction) -> String {
    match action {
        FetchAction::CheckToken => "token".into(),
        FetchAction::Send { headers, bearer } => {
            assert_eq!(
                headers,
                &[
                    ("accept".to_string(), "application/vnd.github+json".to_string()),
                    ("user-agent".to_string(), "selfupdate/0.1.1".to_string())
                ]
            );
            assert_eq!(bearer.as_deref(), Some("secret"));
            "send".into()
        }
        FetchAction::ReadBody => "read".into(),
        FetchAction::Decode => "decode".into(),
        FetchAction::Finish(Ok(())) => "ok".into(),
        FetchAction::Finish(Err(e)) => format!("err:{}", e.to_string()),
    }
}

#[test]
fn requests_check_cancellation_around_every_network_step() {
    let actions = run_fetch(vec![
        FetchEvent::TokenChecked(Ok(())),
        FetchEvent::TokenChecked(Ok(())),
        FetchEvent::Sent(Ok(200)),
        FetchEvent::TokenChecked(Ok(())),
        FetchEvent::Read(Ok(())),
        FetchEvent::TokenChecked(Ok(())),
        FetchEvent::Decoded(Ok(())),
        FetchEvent::TokenChecked(Ok(())),
    ]);
    let kinds: Vec<String> = actions.iter().map(fetch_kind).collect();
    assert_eq!(
        kinds,
        ["token", "token", "send", "token", "read", "token", "decode", "token", "ok"]
    );
}

#[test]
fn requests_reject_other_statuses_and_undecodable_bodies() {
    let actions = run_fetch(vec![
        FetchEvent::TokenChecked(Ok(())),
        FetchEvent::TokenChecked(Ok(())),
        FetchEvent::Sent(Ok(404)),
        FetchEvent::TokenChecked(Ok(())),
    ]);
    assert_eq!(
        fetch_kind(actions.last().unwrap()),
        "err:github: /repos/acme/tool/releases?per_page=100 returned status 404"
    );
    let bad = serde_json::from_str::<u8>("[").unwrap_err();
    let actions = run_fetch(vec![
        FetchEvent::TokenChecked(Ok(())),
        FetchEvent::TokenChecked(Ok(())),
        FetchEvent::Sent(Ok(200)),
        FetchEvent::TokenChecked(Ok(())),
        FetchEvent::Read(Ok(())),
        FetchEvent::TokenChecked(Ok(())),
        FetchEvent::Decoded(Err(bad)),
        FetchEvent::TokenChecked(Ok(())),
    ]);
    match actions.last() {
        Some(FetchAction::Finish(Err(Error::Decode { path, .. }))) => {
            assert_eq!(path, "/repos/acme/tool/releases?per_page=100")
        }
        _ => panic!("expected a decoding error"),
    }
}

#[test]
fn request_cancellation_wins_over_the_response() {
    let actions = run_fetch(vec![
        FetchEvent::TokenChecked(Ok(())),
        FetchEvent::TokenChecked(Ok(())),
        FetchEvent::Sent(Ok(500)),
        FetchEvent::TokenChecked(Err(Error::Cancelled)),
    ]);
    assert_eq!(fetch_kind(actions.last().unwrap()), "err:selfupdate: cancelled");
    let actions = run_fetch(vec![FetchEvent::TokenChecked(Err(Error::Cancelled))]);
    assert_eq!(actions.len(), 2);
    assert!(matches!(actions[1], FetchAction::Finish(Err(Error::Cancelled))));
}

struct OneRelease(&'static str);

impl Source for OneRelease {
    fn latest(&self, _: &CancellationToken) -> Result<Release> {
        Ok(Release {
            tag: self.0.into(),
            prerelease: false,
        })
    }
    fn list(&self, _: &CancellationToken, _: usize) -> Result<Vec<Release>> {
        Ok(vec![])
    }
}

struct BrokenStore;

impl Store for BrokenStore {
    fn channel(&self) -> Result<Channel> {
        Err(Error::external(io::Error::other("unreadable")))
    }
    fn set_channel(&mut self, _: Channel) -> Result<()> {
        Ok(())
    }
}

#[test]
fn checks_compare_the_selected_release_with_the_running_version() {
    let token = CancellationToken::new();
    let specs = selfupdate::default_channels();
    let none: Option<&MemStore> = None;
    let r = check_release(&token, "1.2.0", &OneRelease("v1.3.0"), none, &specs).unwrap();
    assert_eq!(r.current, "v1.2.0");
    assert_eq!(r.latest, "v1.3.0");
    assert_eq!(r.channel.as_str(), "stable");
    assert_eq!(r.cmp, Order::Greater);
    let r = check_release(&token, " v1.3.0 ", &OneRelease("v1.3.0"), none, &specs).unwrap();
    assert_eq!(r.cmp, Order::Equal);
    let store = MemStore {
        current: Channel::from(""),
    };
    let r = check_release(&token, "dev", &OneRelease("v0.1.0"), Some(&store), &specs).unwrap();
    assert_eq!(r.current, "v0.0.0-dev");
    assert_eq!(r.channel.as_str(), "stable");
    assert_eq!(r.cmp, Order::Greater);
    let err = check_release(&token, "1.0.0", &OneRelease("v2.0.0"), Some(&BrokenStore), &specs)
        .unwrap_err();
    assert!(matches!(err, Error::ReadChannel(_)));
    let no_specs: Vec<ChannelSpec> = vec![];
    let err = check_release(&token, "1.0.0", &OneRelease("v2.0.0"), none, &no_specs).unwrap_err();
    assert!(matches!(err, Error::UnknownChannel(c) if c == "stable"));
    token.cancel();
    let err = check_release(&token, "1.0.0", &OneRelease("v2.0.0"), none, &specs).unwrap_err();
    assert!(err.is_cancelled());
}

#[test]
fn the_current_channel_defaults_to_stable() {
    let none: Option<&MemStore> = None;
    assert_eq!(current_channel(none).unwrap().as_str(), "stable");
    let store = MemStore {
        current: Channel::rc(),
    };
    assert_eq!(current_channel(Some(&store)).unwrap().as_str(), "rc");
    assert!(matches!(
        current_channel(Some(&BrokenStore)),
        Err(Error::ReadChannel(_))
    ));
}

/// Runs the installation steps with a real token until the first action that
/// needs a process, which none of these requests may reach.
fn run_until_process(url: &str, tag: &str, token: &CancellationToken) -> (Vec<String>, Option<Result<()>>) {
    let c = config(url, tag, false);
    let (mut state, mut action) = install_start();
    let mut seen = vec![];
    loop {
        seen.push(kind(&action));
        let event = match action {
            InstallAction::CheckToken => InstallEvent::TokenChecked(token.check()),
            InstallAction::Finish(result) => return (seen, Some(result)),
            _ => return (seen, None),
        };
        assert!(install_event_fits(&state, &event));
        (state, action) = install_step(&c, state, event);
    }
}

#[test]
fn invalid_tags_empty_url_and_pre_cancelled_install_never_execute() {
    let url = "file:///tmp/install.sh";
    for tag in [
        "",
        "v1; rm -rf /",
        "v1 $(x)",
        "v1`x`",
        "v1&&x",
        "v1|x",
        "v1 x",
        "../x",
        "-v1",
        "v1\n",
        "é1",
    ] {
        let (seen, result) = run_until_process(url, tag, &CancellationToken::new());
        assert!(matches!(result, Some(Err(Error::UnsafeTag(_)))), "{tag:?}");
        assert!(!seen.iter().any(|a| a.starts_with("spawn")));
    }
    let (_, result) = run_until_process("", "v1", &CancellationToken::new());
    assert!(matches!(result, Some(Err(Error::Configuration(_)))));
    let token = CancellationToken::new();
    token.cancel();
    let (seen, result) = run_until_process(url, "v1.0.0", &token);
    assert!(result.unwrap().unwrap_err().is_cancelled());
    assert!(!seen.iter().any(|a| a.starts_with("spawn")));
    let (seen, result) = run_until_process(url, "v1.0.0", &CancellationToken::new());
    assert!(result.is_none());
    assert_eq!(seen, ["token", "stdin"]);
}

fn resolve_kind(action: &ResolveAction) -> String {
    match action {
        ResolveAction::CheckToken => "token".into(),
        ResolveAction::ReadLatest => "latest".into(),
        ResolveAction::ReadList(n) => format!("list:{n}"),
        ResolveAction::Finish(Ok(tag)) => format!("tag:{tag}"),
        ResolveAction::Finish(Err(e)) => format!("err:{}", e.to_string()),
    }
}

fn run_resolve(channel: Channel, events: Vec<ResolveEvent>) -> Vec<String> {
    let specs = selfupdate::default_channels();
    let (mut state, first) = resolve_start();
    let mut actions = vec![resolve_kind(&first)];
    for event in events {
        let (next, action) = resolve_step(&specs, &channel, state, event);
        state = next;
        actions.push(resolve_kind(&action));
    }
    actions
}

fn page(tags: &[(&str, bool)]) -> Vec<Release> {
    tags.iter()
        .map(|(tag, prerelease)| Release {
            tag: tag.to_string(),
            prerelease: *prerelease,
        })
        .collect()
}

#[test]
fn resolution_steps_list_one_page_and_fall_back_without_a_stable_release() {
    let actions = run_resolve(
        Channel::rc(),
        vec![
            ResolveEvent::TokenChecked(Ok(())),
            ResolveEvent::ListRead(Ok(page(&[("v2.0.0-rc.1", true), ("v2.0.0-nightly.20260101", true)]))),
            ResolveEvent::TokenChecked(Ok(())),
            ResolveEvent::TokenChecked(Ok(())),
            ResolveEvent::LatestRead(Ok(Release {
                tag: "v1.9.0".into(),
                prerelease: false,
            })),
            ResolveEvent::TokenChecked(Ok(())),
        ],
    );
    assert_eq!(
        actions,
        ["token", "list:100", "token", "token", "latest", "token", "tag:v2.0.0-rc.1"]
    );
    let actions = run_resolve(
        Channel::rc(),
        vec![
            ResolveEvent::TokenChecked(Ok(())),
            ResolveEvent::ListRead(Ok(page(&[("v2.0.0-rc.1", true), ("v2.1.0", false)]))),
            ResolveEvent::TokenChecked(Ok(())),
            ResolveEvent::TokenChecked(Ok(())),
        ],
    );
    assert_eq!(actions, ["token", "list:100", "token", "token", "tag:v2.1.0"]);
    let actions = run_resolve(
        Channel::nightly(),
        vec![
            ResolveEvent::TokenChecked(Ok(())),
            ResolveEvent::ListRead(Ok(page(&[("v2.0.0-rc.1", true)]))),
            ResolveEvent::TokenChecked(Ok(())),
            ResolveEvent::TokenChecked(Ok(())),
            ResolveEvent::LatestRead(Ok(Release {
                tag: "v2.0.0-rc.1".into(),
                prerelease: true,
            })),
            ResolveEvent::TokenChecked(Ok(())),
        ],
    );
    assert_eq!(actions.last().unwrap(), "err:no nightly release found");
}

#[test]
fn resolution_steps_for_latest_unknown_and_cancelled_lookups() {
    let actions = run_resolve(
        Channel::from(""),
        vec![
            ResolveEvent::TokenChecked(Ok(())),
            ResolveEvent::LatestRead(Ok(Release {
                tag: "v3.0.0".into(),
                prerelease: false,
            })),
            ResolveEvent::TokenChecked(Ok(())),
        ],
    );
    assert_eq!(actions, ["token", "latest", "token", "tag:v3.0.0"]);
    let actions = run_resolve(Channel::from("beta"), vec![ResolveEvent::TokenChecked(Ok(()))]);
    assert_eq!(actions, ["token", "err:unknown channel \"beta\""]);
    let actions = run_resolve(
        Channel::rc(),
        vec![
            ResolveEvent::TokenChecked(Ok(())),
            ResolveEvent::ListRead(Err(Error::external(io::Error::other("offline")))),
            ResolveEvent::TokenChecked(Err(Error::Cancelled)),
        ],
    );
    assert_eq!(actions, ["token", "list:100", "token", "err:selfupdate: cancelled"]);
}

#[test]
fn the_pipeline_is_spawned_with_fixed_shell_code() {
    let c = config("https://example.com/install.sh", "v1.2.3", false);
    let mut events = spawn_events(false);
    events.truncate(4);
    let (actions, _) = run_install(&c, events);
    match &actions[4] {
        InstallAction::Spawn {
            program,
            arguments,
            detached,
        } => {
            assert_eq!(program, "bash");
            assert_eq!(
                arguments,
                &[
                    "-o",
                    "pipefail",
                    "-c",
                    "curl -fsSL -- \"$1\" | bash -s -- --force \"--tag=$2\"",
                    "selfupdate-rs",
                    "https://example.com/install.sh",
                    "v1.2.3"
                ]
            );
            assert!(*detached);
        }
        _ => panic!("expected the spawn"),
    }
}
