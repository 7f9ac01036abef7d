//! The updater's workflows over in-memory streams: a harness performs the
//! actions that the library's update and switch steps decide, as the updater
//! does, and the scenarios check what a user of the updater sees.
use selfupdate::{
    accepts, channel_line, check_release, current_channel, default_channels, switch_event_fits,
    switch_start, switch_step, update_event_fits, update_start, update_step, CancellationToken,
    Channel, ChannelSpec, CheckResult, Error, Installer, MemStore, Order, Release, Result, Source,
    Store, SwitchAction, SwitchConfig, SwitchEvent, UpdateAction, UpdateConfig, UpdateEvent,
    UpdateOptions,
};
use std::{
    cell::{Cell, RefCell},
    io::{self, BufRead, BufReader, Cursor, Read, Write},
    rc::Rc,
};

type Hook<'a> = Box<dyn FnMut(&CancellationToken, &str, &str) -> Result<()> + 'a>;

struct Updater<'a> {
    name: String,
    version: String,
    source: Box<dyn Source + 'a>,
    store: Option<Box<dyn Store + 'a>>,
    installer: Option<Box<dyn Installer + 'a>>,
    channels: Vec<ChannelSpec>,
    input: Box<dyn BufRead + 'a>,
    out: Box<dyn Write + 'a>,
    err_out: Box<dyn Write + 'a>,
    pre_install: Option<Hook<'a>>,
}

struct UpdaterBuilder<'a>(Updater<'a>);

impl<'a> Updater<'a> {
    fn builder(name: &str, version: &str, source: impl Source + 'a) -> UpdaterBuilder<'a> {
        UpdaterBuilder(Updater {
            name: name.into(),
            version: version.into(),
            source: Box::new(source),
            store: None,
            installer: None,
            channels: default_channels(),
            input: Box::new(BufReader::new(io::empty())),
            out: Box::new(io::sink()),
            err_out: Box::new(io::sink()),
            pre_install: None,
        })
    }

    fn current_channel(&self) -> Result<Channel> {
        current_channel(self.store.as_deref())
    }

    fn check(&self, token: &CancellationToken) -> Result<CheckResult> {
        check_release(
            token,
            &self.version,
            &*self.source,
            self.store.as_deref(),
            &self.channels,
        )
    }

    fn update(&mut self, token: &CancellationToken, options: UpdateOptions) -> Result<()> {
        let config = UpdateConfig {
            name: self.name.clone(),
            options,
            has_installer: self.installer.is_some(),
            has_hook: self.pre_install.is_some(),
        };
        let (mut state, mut action) = update_start();
        loop {
            let event = match action {
                UpdateAction::Check => UpdateEvent::Checked(self.check(token)),
                UpdateAction::Print(m) => UpdateEvent::Printed(self.output(token, &m)),
                UpdateAction::Confirm(p) => UpdateEvent::Answered(self.confirm(token, &p)),
                UpdateAction::CheckToken => UpdateEvent::TokenChecked(token.check()),
                UpdateAction::RunHook { current, latest } => {
                    let hook = self.pre_install.as_mut().unwrap();
                    UpdateEvent::HookRan(hook(token, &current, &latest))
                }
                UpdateAction::Install(tag) => {
                    let installer = self.installer.as_mut().unwrap();
                    UpdateEvent::Installed(installer.install(token, &tag))
                }
                UpdateAction::Finish(result) => return result,
            };
            assert!(update_event_fits(&state, &event));
            (state, action) = update_step(&config, state, event);
        }
    }

    fn switch_channel(
        &mut self,
        token: &CancellationToken,
        channel: impl Into<Channel>,
        yes: bool,
    ) -> Result<()> {
        let config = SwitchConfig {
            name: self.name.clone(),
            channel: channel.into(),
            yes,
            has_store: self.store.is_some(),
        };
        let (mut state, mut action) = switch_start();
        loop {
            let event = match action {
                SwitchAction::CheckToken => SwitchEvent::TokenChecked(token.check()),
                SwitchAction::Warn(text) => SwitchEvent::Warned(self.warn(&text)),
                SwitchAction::Confirm(p) => SwitchEvent::Answered(self.confirm(token, &p)),
                SwitchAction::Save(c) => {
                    SwitchEvent::Saved(self.store.as_mut().unwrap().set_channel(c))
                }
                SwitchAction::Print(m) => SwitchEvent::Printed(self.output(token, &m)),
                SwitchAction::Finish(result) => return result,
            };
            assert!(switch_event_fits(&state, &event));
            (state, action) = switch_step(&self.channels, &config, state, event);
        }
    }

    fn show_channel(&mut self, token: &CancellationToken) -> Result<()> {
        token.check()?;
        let channel = self.current_channel()?;
        self.output(token, &channel_line(&channel))
    }

    fn output(&mut self, token: &CancellationToken, message: &str) -> Result<()> {
        token.check()?;
        self.out.write_all(message.as_bytes()).map_err(Error::Output)?;
        self.out.flush().map_err(Error::Output)?;
        token.check()
    }

    fn warn(&mut self, text: &str) -> Result<()> {
        self.err_out.write_all(text.as_bytes()).map_err(Error::Output)?;
        self.err_out.flush().map_err(Error::Output)
    }

    fn confirm(&mut self, token: &CancellationToken, prompt: &str) -> Result<bool> {
        self.output(token, prompt)?;
        let mut line = String::new();
        let read = self.input.read_line(&mut line);
        token.check()?;
        Ok(accepts(&line, read.is_ok()))
    }
}

impl<'a> UpdaterBuilder<'a> {
    fn store(mut self, store: impl Store + 'a) -> Self {
        self.0.store = Some(Box::new(store));
        self
    }
    fn installer(mut self, installer: impl Installer + 'a) -> Self {
        self.0.installer = Some(Box::new(installer));
        self
    }
    fn channels(mut self, channels: Vec<ChannelSpec>) -> Self {
        self.0.channels = channels;
        self
    }
    fn input(mut self, input: impl Read + 'a) -> Self {
        self.0.input = Box::new(BufReader::new(input));
        self
    }
    fn output(mut self, out: impl Write + 'a) -> Self {
        self.0.out = Box::new(out);
        self
    }
    fn error_output(mut self, out: impl Write + 'a) -> Self {
        self.0.err_out = Box::new(out);
        self
    }
    fn pre_install(
        mut self,
        hook: impl FnMut(&CancellationToken, &str, &str) -> Result<()> + 'a,
    ) -> Self {
        self.0.pre_install = Some(Box::new(hook));
        self
    }
    fn build(self) -> Updater<'a> {
        self.0
    }
}

type Getter<'a> = Box<dyn Fn() -> Result<Channel> + 'a>;
type Setter<'a> = Box<dyn FnMut(Channel) -> Result<()> + 'a>;

/// A closure-backed store, as consumers adapt their configuration.
#[derive(Default)]
struct FuncStore<'a> {
    get: Option<Getter<'a>>,
    set: Option<Setter<'a>>,
}

impl<'a> FuncStore<'a> {
    fn new(
        get: impl Fn() -> Result<Channel> + 'a,
        set: impl FnMut(Channel) -> Result<()> + 'a,
    ) -> Self {
        FuncStore {
            get: Some(Box::new(get)),
            set: Some(Box::new(set)),
        }
    }
}

impl Store for FuncStore<'_> {
    fn channel(&self) -> Result<Channel> {
        self.get.as_ref().ok_or(Error::NoStore)?()
    }
    fn set_channel(&mut self, channel: Channel) -> Result<()> {
        self.set.as_mut().ok_or(Error::NoStore)?(channel)
    }
}

#[derive(Default)]
struct FakeSource {
    latest: Release,
    releases: Vec<Release>,
    fail_latest: bool,
}

impl Source for FakeSource {
    fn latest(&self, _: &CancellationToken) -> Result<Release> {
        if self.fail_latest {
            Err(Error::external(io::Error::other("offline")))
        } else {
            Ok(self.latest.clone())
        }
    }
    fn list(&self, _: &CancellationToken, _: usize) -> Result<Vec<Release>> {
        Ok(self.releases.clone())
    }
}

fn rel(tag: &str, prerelease: bool) -> Release {
    Release {
        tag: tag.into(),
        prerelease,
    }
}

fn source(tag: &str) -> FakeSource {
    FakeSource {
        latest: rel(tag, false),
        ..Default::default()
    }
}

fn fixture() -> Vec<Release> {
    vec![
        rel("v0.11.0-rc3", true),
        rel("v0.11.0-rc2", true),
        rel("v0.11.0-rc.1", true),
        rel("v0.11.0-nightly.20260302", true),
        rel("v0.11.0-nightly.20260301", true),
        rel("v0.10.0", false),
    ]
}

#[derive(Default)]
struct Recorder {
    events: Rc<RefCell<Vec<String>>>,
    fail: bool,
}

impl Installer for Recorder {
    fn install(&mut self, _: &CancellationToken, tag: &str) -> Result<()> {
        self.events.borrow_mut().push(format!("install:{tag}"));
        if self.fail {
            Err(Error::external(io::Error::other("install failed")))
        } else {
            Ok(())
        }
    }
}

struct BrokenOutput {
    flush_only: bool,
}

impl Write for BrokenOutput {
    fn write(&mut self, bytes: &[u8]) -> io::Result<usize> {
        if self.flush_only {
            Ok(bytes.len())
        } else {
            Err(io::Error::new(io::ErrorKind::BrokenPipe, "closed"))
        }
    }
    fn flush(&mut self) -> io::Result<()> {
        Err(io::Error::new(io::ErrorKind::BrokenPipe, "closed"))
    }
}

#[test]
fn check_and_status_messages() {
    for check in [true, false] {
        for (current, latest, message) in [
            ("v1.0.0", "v1.0.0", "tool v1.0.0 (stable) is up to date\n"),
            (
                "v2.0.0",
                "v1.0.0",
                "tool v2.0.0 is newer than the latest stable release v1.0.0\n",
            ),
        ] {
            let mut output = vec![];
            let mut updater = Updater::builder("tool", current, source(latest))
                .output(&mut output)
                .build();
            updater
                .update(
                    &CancellationToken::new(),
                    UpdateOptions {
                        check,
                        ..Default::default()
                    },
                )
                .unwrap();
            drop(updater);
            assert_eq!(String::from_utf8(output).unwrap(), message);
        }
    }
    let mut output = vec![];
    let mut updater = Updater::builder("tool", "1.0.0", source("v2.0.0"))
        .output(&mut output)
        .build();
    updater
        .update(
            &CancellationToken::new(),
            UpdateOptions {
                check: true,
                force: true,
                yes: true,
            },
        )
        .unwrap();
    drop(updater);
    assert_eq!(
        String::from_utf8(output).unwrap(),
        "Update available: v1.0.0 -> v2.0.0 (stable channel)\nRun 'tool self update' to upgrade\n"
    );
    let updater = Updater::builder(
        "tool",
        "0.10.0",
        FakeSource {
            releases: fixture(),
            ..Default::default()
        },
    )
    .store(MemStore {
        current: Channel::rc(),
    })
    .build();
    assert_eq!(
        updater.check(&CancellationToken::new()).unwrap(),
        CheckResult {
            current: "v0.10.0".into(),
            latest: "v0.11.0-rc3".into(),
            channel: Channel::rc(),
            cmp: Order::Greater,
        }
    );
}

#[test]
fn only_y_or_uppercase_y_accepts_and_eof_declines() {
    for input in ["y\n", "Y\n", " y \r\n", "yes\n", "n\n", "\n", "", "y", "Y"] {
        let events = Rc::new(RefCell::new(vec![]));
        let mut output = vec![];
        let mut updater = Updater::builder("tool", "v1.0.0", source("v2.0.0"))
            .installer(Recorder {
                events: events.clone(),
                fail: false,
            })
            .input(Cursor::new(input))
            .output(&mut output)
            .build();
        updater
            .update(&CancellationToken::new(), UpdateOptions::default())
            .unwrap();
        drop(updater);
        let accepted = input.ends_with('\n') && matches!(input.trim(), "y" | "Y");
        assert_eq!(events.borrow().len(), usize::from(accepted), "{input:?}");
        assert_eq!(
            String::from_utf8(output).unwrap(),
            format!(
                "Updating tool v1.0.0 -> v2.0.0...\nContinue? [y/N] {}",
                if accepted { "" } else { "Update cancelled.\n" }
            )
        );
    }
}

#[test]
fn force_hook_order_and_installer_failure() {
    for latest in ["v1.0.0", "v0.9.0"] {
        let events = Rc::new(RefCell::new(vec![]));
        let hook_events = events.clone();
        let mut updater = Updater::builder("tool", "1.0.0", source(latest))
            .output(io::sink())
            .installer(Recorder {
                events: events.clone(),
                fail: false,
            })
            .pre_install(move |_, current, latest| {
                hook_events
                    .borrow_mut()
                    .push(format!("pre:{current}->{latest}"));
                Ok(())
            })
            .build();
        updater
            .update(
                &CancellationToken::new(),
                UpdateOptions {
                    force: true,
                    yes: true,
                    check: false,
                },
            )
            .unwrap();
        assert_eq!(
            *events.borrow(),
            [format!("pre:v1.0.0->{latest}"), format!("install:{latest}")]
        );
    }
    let mut updater = Updater::builder("tool", "dev", source("v1.0.0"))
        .output(io::sink())
        .installer(Recorder {
            fail: true,
            ..Default::default()
        })
        .build();
    assert_eq!(
        updater
            .update(
                &CancellationToken::new(),
                UpdateOptions {
                    yes: true,
                    ..Default::default()
                }
            )
            .unwrap_err()
            .to_string(),
        "install failed"
    );
}

#[test]
fn hook_and_missing_installer_prevent_installation() {
    let mut installer = Recorder::default();
    let mut updater = Updater::builder("tool", "dev", source("v1.0.0"))
        .output(io::sink())
        .installer(&mut installer)
        .pre_install(|_, _, _| Err(Error::external(io::Error::other("backup failed"))))
        .build();
    let error = updater
        .update(
            &CancellationToken::new(),
            UpdateOptions {
                yes: true,
                ..Default::default()
            },
        )
        .unwrap_err();
    // The hook's failure is kept as the cause.
    match &error {
        Error::PreInstall(cause) => assert!(matches!(**cause, Error::External(_))),
        _ => panic!("expected a pre-install failure"),
    }
    drop(updater);
    assert!(installer.events.borrow().is_empty());
    let mut updater = Updater::builder("tool", "dev", source("v1.0.0"))
        .output(io::sink())
        .pre_install(|_, _, _| panic!("no installer must skip hook"))
        .build();
    assert!(matches!(
        updater.update(
            &CancellationToken::new(),
            UpdateOptions {
                yes: true,
                ..Default::default()
            }
        ),
        Err(Error::NoInstaller)
    ));
    let mut updater = Updater::builder(
        "tool",
        "dev",
        FakeSource {
            fail_latest: true,
            ..Default::default()
        },
    )
    .build();
    assert!(matches!(
        updater.update(&CancellationToken::new(), UpdateOptions::default()),
        Err(Error::Check(_))
    ));
}

#[test]
fn cancellation_in_hook_and_prompt_prevents_installation() {
    let mut installer = Recorder::default();
    let token = CancellationToken::new();
    let mut updater = Updater::builder("tool", "dev", source("v1.0.0"))
        .output(io::sink())
        .installer(&mut installer)
        .pre_install(|token, _, _| {
            token.cancel();
            Ok(())
        })
        .build();
    assert!(updater
        .update(
            &token,
            UpdateOptions {
                yes: true,
                ..Default::default()
            }
        )
        .unwrap_err()
        .is_cancelled());
    drop(updater);
    assert!(installer.events.borrow().is_empty());
    struct CancelRead(CancellationToken);
    impl io::Read for CancelRead {
        fn read(&mut self, buffer: &mut [u8]) -> io::Result<usize> {
            self.0.cancel();
            buffer[..2].copy_from_slice(b"y\n");
            Ok(2)
        }
    }
    let token = CancellationToken::new();
    let mut updater = Updater::builder("tool", "dev", source("v1.0.0"))
        .output(io::sink())
        .installer(&mut installer)
        .input(CancelRead(token.clone()))
        .build();
    assert!(updater
        .update(&token, UpdateOptions::default())
        .unwrap_err()
        .is_cancelled());
    drop(updater);
    assert!(installer.events.borrow().is_empty());
}

#[test]
fn stores_and_channel_switch_workflows() {
    let mut store = MemStore::default();
    let mut output = vec![];
    let mut warnings = vec![];
    let mut updater = Updater::builder("tool", "dev", source("v1.0.0"))
        .store(&mut store)
        .input(Cursor::new("y\nn\ny\n"))
        .output(&mut output)
        .error_output(&mut warnings)
        .build();
    let token = CancellationToken::new();
    assert_eq!(updater.current_channel().unwrap(), Channel::stable());
    updater.switch_channel(&token, Channel::rc(), false).unwrap();
    assert_eq!(updater.current_channel().unwrap(), Channel::rc());
    updater
        .switch_channel(&token, Channel::nightly(), false)
        .unwrap();
    assert_eq!(updater.current_channel().unwrap(), Channel::rc());
    // Buffering must retain the third line across calls.
    updater
        .switch_channel(&token, Channel::nightly(), false)
        .unwrap();
    assert_eq!(updater.current_channel().unwrap(), Channel::nightly());
    updater
        .switch_channel(&token, Channel::stable(), false)
        .unwrap();
    updater
        .switch_channel(&token, Channel::nightly(), true)
        .unwrap();
    updater.show_channel(&token).unwrap();
    drop(updater);
    assert_eq!(store.current, Channel::nightly());
    let output = String::from_utf8(output).unwrap();
    assert!(output
        .contains("Switched to rc channel\nRun 'tool self update' to get the latest rc build\n"));
    assert!(output.contains("Cancelled.\n"));
    assert!(output.contains("Switched to stable channel\nSwitched to nightly channel"));
    assert!(output.ends_with("Current update channel: nightly\n"));
    let warnings = String::from_utf8(warnings).unwrap();
    assert_eq!(warnings.matches("Nightly builds").count(), 2);
    assert!(warnings
        .starts_with("\nRelease candidates may contain bugs that have not been fully tested.\n\n"));
}

#[test]
fn missing_and_failing_stores() {
    let token = CancellationToken::new();
    let mut updater = Updater::builder("tool", "dev", source("")).build();
    assert_eq!(updater.current_channel().unwrap(), Channel::stable());
    assert!(matches!(
        updater.switch_channel(&token, Channel::rc(), true),
        Err(Error::NoStore)
    ));
    assert_eq!(
        updater
            .switch_channel(&token, "beta", true)
            .unwrap_err()
            .to_string(),
        "invalid channel \"beta\": must be one of stable, rc, nightly"
    );
    let mut store = FuncStore::default();
    assert!(matches!(store.channel(), Err(Error::NoStore)));
    assert!(matches!(
        store.set_channel(Channel::rc()),
        Err(Error::NoStore)
    ));
    let updater = Updater::builder("tool", "dev", source(""))
        .store(FuncStore::new(|| Ok("".into()), |_| Ok(())))
        .build();
    assert_eq!(updater.current_channel().unwrap(), Channel::stable());
    let updater = Updater::builder("tool", "dev", source(""))
        .store(FuncStore::default())
        .build();
    assert!(matches!(
        updater.current_channel(),
        Err(Error::ReadChannel(_))
    ));
    let mut updater = Updater::builder("tool", "dev", source(""))
        .store(FuncStore::new(
            || Ok(Channel::stable()),
            |_| Err(Error::external(io::Error::other("disk full"))),
        ))
        .build();
    assert!(matches!(
        updater.switch_channel(&token, Channel::rc(), true),
        Err(Error::SaveChannel(_))
    ));
    let mut updater = Updater::builder("tool", "dev", source(""))
        .channels(vec![])
        .build();
    assert!(matches!(
        updater.switch_channel(&token, Channel::stable(), true),
        Err(Error::InvalidChannel { .. })
    ));
}

#[test]
fn output_and_flush_errors_propagate_before_installation_or_save() {
    for flush_only in [false, true] {
        for check in [true, false] {
            let mut updater = Updater::builder("tool", "dev", source("v1.0.0"))
                .output(BrokenOutput { flush_only })
                .pre_install(|_, _, _| panic!("must not run"))
                .build();
            assert!(matches!(
                updater.update(
                    &CancellationToken::new(),
                    UpdateOptions {
                        check,
                        yes: true,
                        force: false
                    }
                ),
                Err(Error::Output(_))
            ));
        }
        let saved = Cell::new(false);
        let mut updater = Updater::builder("tool", "dev", source(""))
            .store(FuncStore::new(
                || Ok(Channel::stable()),
                |_| {
                    saved.set(true);
                    Ok(())
                },
            ))
            .output(io::sink())
            .error_output(BrokenOutput { flush_only })
            .build();
        assert!(matches!(
            updater.switch_channel(&CancellationToken::new(), Channel::rc(), false),
            Err(Error::Output(_))
        ));
        assert!(!saved.get());
    }
    let mut updater = Updater::builder("tool", "dev", source(""))
        .store(MemStore::default())
        .output(BrokenOutput { flush_only: false })
        .build();
    assert!(matches!(
        updater.switch_channel(&CancellationToken::new(), Channel::rc(), true),
        Err(Error::Output(_))
    ));
    assert_eq!(updater.current_channel().unwrap(), Channel::rc());
}

#[test]
fn consumer_error_type_survives_workflow_context() {
    let mut updater = Updater::builder(
        "tool",
        "dev",
        FakeSource {
            fail_latest: true,
            ..Default::default()
        },
    )
    .build();
    let error = updater
        .update(&CancellationToken::new(), UpdateOptions::default())
        .unwrap_err();
    // The consumer's error is reached through the workflow's wrapper.
    match error {
        Error::Check(cause) => match *cause {
            Error::External(inner) => assert_eq!(inner.to_string(), "offline"),
            _ => panic!("expected the consumer's error"),
        },
        _ => panic!("expected a check failure"),
    }
}

#[test]
fn input_errors_decline_without_running_hook_or_installer() {
    struct BrokenInput;
    impl io::Read for BrokenInput {
        fn read(&mut self, _: &mut [u8]) -> io::Result<usize> {
            Err(io::Error::other("closed"))
        }
    }
    let mut out = vec![];
    let mut updater = Updater::builder("tool", "dev", source("v1.0.0"))
        .input(BrokenInput)
        .output(&mut out)
        .pre_install(|_, _, _| panic!("declined updates must skip the hook"))
        .build();
    updater
        .update(&CancellationToken::new(), UpdateOptions::default())
        .unwrap();
    drop(updater);
    assert!(String::from_utf8(out)
        .unwrap()
        .ends_with("Update cancelled.\n"));
}

#[test]
fn cancellation_before_persistence_does_not_save() {
    struct CancelOutput(CancellationToken);
    impl Write for CancelOutput {
        fn write(&mut self, bytes: &[u8]) -> io::Result<usize> {
            self.0.cancel();
            Ok(bytes.len())
        }
        fn flush(&mut self) -> io::Result<()> {
            Ok(())
        }
    }
    let token = CancellationToken::new();
    let saved = Cell::new(false);
    let mut updater = Updater::builder("tool", "dev", source(""))
        .input(Cursor::new("y\n"))
        .output(CancelOutput(token.clone()))
        .error_output(io::sink())
        .store(FuncStore::new(
            || Ok(Channel::stable()),
            |_| {
                saved.set(true);
                Ok(())
            },
        ))
        .build();
    assert!(updater
        .switch_channel(&token, Channel::rc(), false)
        .unwrap_err()
        .is_cancelled());
    assert!(!saved.get());
}
