//! The update and channel-switch steps, driven with scripted outcomes.
use selfupdate::{
    accepts, channel_choices, channel_from_store, channel_line, check_result, default_channels,
    switch_event_fits, switch_start, switch_step, update_event_fits, update_start, update_step,
    Channel, ChannelSpec, CheckResult, Error, Order, Result, SwitchAction, SwitchConfig,
    SwitchEvent, UpdateAction, UpdateConfig, UpdateEvent, UpdateOptions,
};
use std::io;

/// Scripted answers to the actions of an update run.
struct UpdateScript {
    check: Option<Result<CheckResult>>,
    answer: Option<Result<bool>>,
    cancel_after_hook: bool,
    hook_fails: bool,
    install_fails: bool,
    print_fails: bool,
}

impl UpdateScript {
    fn new(check: Result<CheckResult>) -> Self {
        UpdateScript {
            check: Some(check),
            answer: None,
            cancel_after_hook: false,
            hook_fails: false,
            install_fails: false,
            print_fails: false,
        }
    }
}

/// Run an update, recording each action; returns the trace and the result.
fn run_update(config: &UpdateConfig, mut script: UpdateScript) -> (Vec<String>, Result<()>) {
    let mut trace = vec![];
    let mut cancelled = false;
    let (mut state, mut action) = update_start();
    loop {
        let event = match action {
            UpdateAction::Check => {
                trace.push("check".to_string());
                UpdateEvent::Checked(script.check.take().unwrap())
            }
            UpdateAction::Print(m) => {
                trace.push(format!("print:{m}"));
                if script.print_fails {
                    UpdateEvent::Printed(Err(Error::Output(io::Error::other("closed"))))
                } else {
                    UpdateEvent::Printed(Ok(()))
                }
            }
            UpdateAction::Confirm(p) => {
                trace.push(format!("confirm:{p}"));
                UpdateEvent::Answered(script.answer.take().unwrap())
            }
            UpdateAction::CheckToken => {
                trace.push("token".to_string());
                UpdateEvent::TokenChecked(if cancelled {
                    Err(Error::Cancelled)
                } else {
                    Ok(())
                })
            }
            UpdateAction::RunHook { current, latest } => {
                trace.push(format!("hook:{current}->{latest}"));
                if script.cancel_after_hook {
                    cancelled = true;
                }
                UpdateEvent::HookRan(if script.hook_fails {
                    Err(Error::external(io::Error::other("backup failed")))
                } else {
                    Ok(())
                })
            }
            UpdateAction::Install(tag) => {
                trace.push(format!("install:{tag}"));
                UpdateEvent::Installed(if script.install_fails {
                    Err(Error::external(io::Error::other("install failed")))
                } else {
                    Ok(())
                })
            }
            UpdateAction::Finish(r) => return (trace, r),
        };
        assert!(update_event_fits(&state, &event));
        (state, action) = update_step(config, state, event);
    }
}

fn config(options: UpdateOptions, has_installer: bool, has_hook: bool) -> UpdateConfig {
    UpdateConfig {
        name: "tool".into(),
        options,
        has_installer,
        has_hook,
    }
}

fn result(current: &str, latest: &str) -> CheckResult {
    check_result(current, latest.to_string(), Channel::stable())
}

#[test]
fn check_result_normalizes_and_compares() {
    let r = check_result("0.10.0", "v0.11.0-rc3".into(), Channel::rc());
    assert_eq!(
        r,
        CheckResult {
            current: "v0.10.0".into(),
            latest: "v0.11.0-rc3".into(),
            channel: Channel::rc(),
            cmp: Order::Greater,
        }
    );
    assert_eq!(check_result("v2.0.0", "v1.0.0".into(), Channel::stable()).cmp, Order::Less);
    assert_eq!(check_result("1.0.0", "v1.0.0".into(), Channel::stable()).cmp, Order::Equal);
}

#[test]
fn status_messages_for_each_comparison() {
    for check in [true, false] {
        for (current, latest, message) in [
            ("v1.0.0", "v1.0.0", "tool v1.0.0 (stable) is up to date\n"),
            (
                "v2.0.0",
                "v1.0.0",
                "tool v2.0.0 is newer than the latest stable release v1.0.0\n",
            ),
        ] {
            let options = UpdateOptions {
                check,
                ..Default::default()
            };
            let (trace, r) = run_update(
                &config(options, false, false),
                UpdateScript::new(Ok(result(current, latest))),
            );
            assert!(r.is_ok());
            assert_eq!(trace, ["check".to_string(), format!("print:{message}")]);
        }
    }
    let options = UpdateOptions {
        check: true,
        force: true,
        yes: true,
    };
    let (trace, r) = run_update(
        &config(options, true, true),
        UpdateScript::new(Ok(result("1.0.0", "v2.0.0"))),
    );
    assert!(r.is_ok());
    assert_eq!(
        trace,
        [
            "check",
            "print:Update available: v1.0.0 -> v2.0.0 (stable channel)\nRun 'tool self update' to upgrade\n"
        ]
    );
}

#[test]
fn only_accepted_answers_install() {
    for (answer, accepted) in [(Ok(true), true), (Ok(false), false), (Err(Error::Cancelled), false)] {
        let failed = answer.is_err();
        let mut script = UpdateScript::new(Ok(result("v1.0.0", "v2.0.0")));
        script.answer = Some(answer);
        let (trace, r) = run_update(&config(UpdateOptions::default(), true, false), script);
        assert_eq!(trace[1], "print:Updating tool v1.0.0 -> v2.0.0...\n");
        assert_eq!(trace[2], "confirm:Continue? [y/N] ");
        assert_eq!(trace.contains(&"install:v2.0.0".to_string()), accepted);
        if failed {
            assert!(r.unwrap_err().is_cancelled());
        } else {
            assert!(r.is_ok());
            if !accepted {
                assert_eq!(trace.last().unwrap(), "print:Update cancelled.\n");
            }
        }
    }
}

#[test]
fn confirmation_lines() {
    for input in ["y\n", "Y\n", " y \r\n", "yes\n", "n\n", "\n", "", "y", "Y"] {
        let expected = input.ends_with('\n') && matches!(input.trim(), "y" | "Y");
        assert_eq!(accepts(input, true), expected, "{input:?}");
        assert!(!accepts(input, false));
    }
}

#[test]
fn force_runs_hook_then_installs_checked_tag() {
    for latest in ["v1.0.0", "v0.9.0"] {
        let options = UpdateOptions {
            force: true,
            yes: true,
            check: false,
        };
        let (trace, r) = run_update(
            &config(options, true, true),
            UpdateScript::new(Ok(result("1.0.0", latest))),
        );
        assert!(r.is_ok());
        let hooks: Vec<_> = trace
            .iter()
            .filter(|t| t.starts_with("hook") || t.starts_with("install"))
            .cloned()
            .collect();
        assert_eq!(hooks, [format!("hook:v1.0.0->{latest}"), format!("install:{latest}")]);
    }
    let mut script = UpdateScript::new(Ok(result("dev", "v1.0.0")));
    script.install_fails = true;
    let options = UpdateOptions {
        yes: true,
        ..Default::default()
    };
    let (_, r) = run_update(&config(options, true, false), script);
    assert_eq!(r.unwrap_err().to_string(), "install failed");
}

#[test]
fn hook_failure_and_missing_installer_prevent_installation() {
    let options = UpdateOptions {
        yes: true,
        ..Default::default()
    };
    let mut script = UpdateScript::new(Ok(result("dev", "v1.0.0")));
    script.hook_fails = true;
    let (trace, r) = run_update(&config(options, true, true), script);
    assert!(matches!(r, Err(Error::PreInstall(_))));
    assert!(!trace.iter().any(|t| t.starts_with("install")));
    let (trace, r) = run_update(
        &config(options, false, true),
        UpdateScript::new(Ok(result("dev", "v1.0.0"))),
    );
    assert!(matches!(r, Err(Error::NoInstaller)));
    assert!(!trace.iter().any(|t| t.starts_with("hook")));
    let (_, r) = run_update(
        &config(UpdateOptions::default(), true, false),
        UpdateScript::new(Err(Error::external(io::Error::other("offline")))),
    );
    assert!(matches!(r, Err(Error::Check(_))));
}

#[test]
fn cancellation_in_hook_prevents_installation() {
    let options = UpdateOptions {
        yes: true,
        ..Default::default()
    };
    let mut script = UpdateScript::new(Ok(result("dev", "v1.0.0")));
    script.cancel_after_hook = true;
    let (trace, r) = run_update(&config(options, true, true), script);
    assert!(r.unwrap_err().is_cancelled());
    assert!(!trace.iter().any(|t| t.starts_with("install")));
}

#[test]
fn output_errors_stop_before_installation() {
    for check in [true, false] {
        let mut script = UpdateScript::new(Ok(result("dev", "v1.0.0")));
        script.print_fails = true;
        let options = UpdateOptions {
            check,
            yes: true,
            force: false,
        };
        let (trace, r) = run_update(&config(options, true, true), script);
        assert!(matches!(r, Err(Error::Output(_))));
        assert!(!trace.iter().any(|t| t.starts_with("hook") || t.starts_with("install")));
    }
}

/// Scripted answers to the actions of a channel switch.
struct SwitchScript {
    answers: Vec<Result<bool>>,
    warn_fails: bool,
    save_fails: bool,
    cancel_on_print: bool,
}

fn run_switch(
    specs: &[ChannelSpec],
    config: &SwitchConfig,
    mut script: SwitchScript,
) -> (Vec<String>, Result<()>) {
    let mut trace = vec![];
    let mut cancelled = false;
    let (mut state, mut action) = switch_start();
    loop {
        let event = match action {
            SwitchAction::CheckToken => {
                trace.push("token".to_string());
                SwitchEvent::TokenChecked(if cancelled {
                    Err(Error::Cancelled)
                } else {
                    Ok(())
                })
            }
            SwitchAction::Warn(w) => {
                trace.push(format!("warn:{w}"));
                SwitchEvent::Warned(if script.warn_fails {
                    Err(Error::Output(io::Error::other("closed")))
                } else {
                    Ok(())
                })
            }
            SwitchAction::Confirm(p) => {
                trace.push(format!("confirm:{p}"));
                if script.cancel_on_print {
                    cancelled = true;
                }
                SwitchEvent::Answered(script.answers.remove(0))
            }
            SwitchAction::Save(c) => {
                trace.push(format!("save:{}", c.as_str()));
                SwitchEvent::Saved(if script.save_fails {
                    Err(Error::external(io::Error::other("disk full")))
                } else {
                    Ok(())
                })
            }
            SwitchAction::Print(m) => {
                trace.push(format!("print:{m}"));
                SwitchEvent::Printed(Ok(()))
            }
            SwitchAction::Finish(r) => return (trace, r),
        };
        assert!(switch_event_fits(&state, &event));
        (state, action) = switch_step(specs, config, state, event);
    }
}

fn switch(channel: Channel, yes: bool, has_store: bool) -> SwitchConfig {
    SwitchConfig {
        name: "tool".into(),
        channel,
        yes,
        has_store,
    }
}

fn script(answers: Vec<Result<bool>>) -> SwitchScript {
    SwitchScript {
        answers,
        warn_fails: false,
        save_fails: false,
        cancel_on_print: false,
    }
}

#[test]
fn channel_switch_workflows() {
    let specs = default_channels();
    let (trace, r) = run_switch(&specs, &switch(Channel::rc(), false, true), script(vec![Ok(true)]));
    assert!(r.is_ok());
    assert_eq!(
        trace,
        [
            "token",
            "token",
            "warn:\nRelease candidates may contain bugs that have not been fully tested.\n\n",
            "confirm:Switch to rc channel? [y/N] ",
            "token",
            "save:rc",
            "print:Switched to rc channel\n",
            "print:Run 'tool self update' to get the latest rc build\n",
        ]
    );
    let (trace, r) =
        run_switch(&specs, &switch(Channel::nightly(), false, true), script(vec![Ok(false)]));
    assert!(r.is_ok());
    assert_eq!(trace.last().unwrap(), "print:Cancelled.\n");
    assert!(!trace.iter().any(|t| t.starts_with("save")));
    let (trace, r) = run_switch(&specs, &switch(Channel::stable(), false, true), script(vec![]));
    assert!(r.is_ok());
    assert_eq!(trace, ["token", "token", "save:stable", "print:Switched to stable channel\n"]);
    let (trace, r) = run_switch(&specs, &switch(Channel::nightly(), true, true), script(vec![]));
    assert!(r.is_ok());
    assert!(!trace.iter().any(|t| t.starts_with("warn") || t.starts_with("confirm")));
    assert!(trace.contains(&"print:Switched to nightly channel\n".to_string()));
}

#[test]
fn channel_switch_failures() {
    let specs = default_channels();
    let (trace, r) = run_switch(&specs, &switch(Channel::rc(), true, false), script(vec![]));
    assert!(matches!(r, Err(Error::NoStore)));
    assert_eq!(trace, ["token"]);
    let (_, r) = run_switch(&specs, &switch("beta".into(), true, true), script(vec![]));
    assert_eq!(
        r.unwrap_err().to_string(),
        "invalid channel \"beta\": must be one of stable, rc, nightly"
    );
    let (_, r) = run_switch(&[], &switch(Channel::stable(), true, true), script(vec![]));
    assert!(matches!(r, Err(Error::InvalidChannel { .. })));
    let mut failing = script(vec![]);
    failing.save_fails = true;
    let (_, r) = run_switch(&specs, &switch(Channel::rc(), true, true), failing);
    assert!(matches!(r, Err(Error::SaveChannel(_))));
    let mut broken = script(vec![]);
    broken.warn_fails = true;
    let (trace, r) = run_switch(&specs, &switch(Channel::rc(), false, true), broken);
    assert!(matches!(r, Err(Error::Output(_))));
    assert!(!trace.iter().any(|t| t.starts_with("save")));
    let mut cancelling = script(vec![Ok(true)]);
    cancelling.cancel_on_print = true;
    let (trace, r) = run_switch(&specs, &switch(Channel::rc(), false, true), cancelling);
    assert!(r.unwrap_err().is_cancelled());
    assert!(!trace.iter().any(|t| t.starts_with("save")));
}

#[test]
fn stored_channels_and_lines() {
    assert_eq!(channel_from_store(Ok("".into())).unwrap(), Channel::stable());
    assert_eq!(channel_from_store(Ok(Channel::rc())).unwrap(), Channel::rc());
    assert!(matches!(
        channel_from_store(Err(Error::NoStore)),
        Err(Error::ReadChannel(_))
    ));
    assert_eq!(channel_line(&Channel::rc()), "Current update channel: rc\n");
    assert_eq!(channel_choices(&default_channels()), "stable, rc, nightly");
    assert_eq!(channel_choices(&[]), "");
}
