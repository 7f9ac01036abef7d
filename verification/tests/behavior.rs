//! Channel resolution and version precedence scenarios.
use selfupdate::{
    compare, default_channels, lookup_channel, normalize_version, resolve, CancellationToken,
    Channel, ChannelSpec, Error, Installer, MemStore, Pattern, Release, Result, Source, Store,
};
use std::{cell::RefCell, cmp::Ordering, io};

#[derive(Default)]
struct FakeSource {
    latest: Release,
    releases: Vec<Release>,
    calls: RefCell<Vec<String>>,
    fail_latest: bool,
    fail_list: bool,
    cancel_list: bool,
}
impl Source for FakeSource {
    fn latest(&self, _: &CancellationToken) -> Result<Release> {
        self.calls.borrow_mut().push("latest".into());
        if self.fail_latest {
            Err(Error::external(io::Error::other("offline")))
        } else {
            Ok(self.latest.clone())
        }
    }
    fn list(&self, token: &CancellationToken, limit: usize) -> Result<Vec<Release>> {
        self.calls.borrow_mut().push(format!("list:{limit}"));
        if self.cancel_list {
            token.cancel();
        }
        if self.fail_list {
            Err(Error::external(io::Error::other("offline")))
        } else {
            Ok(self.releases.clone())
        }
    }
}
fn rel(tag: &str, prerelease: bool) -> Release {
    Release {
        tag: tag.into(),
        prerelease,
    }
}
fn source(tag: &str) -> FakeSource {
    FakeSource {
        latest: rel(tag, false),
        ..Default::default()
    }
}
fn fixture() -> Vec<Release> {
    vec![
        rel("v0.11.0-rc3", true),
        rel("v0.11.0-rc2", true),
        rel("v0.11.0-rc.1", true),
        rel("v0.11.0-nightly.20260302", true),
        rel("v0.11.0-nightly.20260301", true),
        rel("v0.10.0", false),
    ]
}

#[test]
fn version_compatibility() {
    for (input, expected) in [
        ("", "v0.0.0-dev"),
        (" dev\n", "v0.0.0-dev"),
        ("0.1.0", "v0.1.0"),
        (" v1.2.3-rc.1 ", "v1.2.3-rc.1"),
        ("nonsense", "vnonsense"),
    ] {
        assert_eq!(normalize_version(input), expected);
    }
    for (current, latest, cmp) in [
        ("dev", "v1.0.0", Ordering::Greater),
        ("1.2.3", "v1.2.3", Ordering::Equal),
        ("v1.3.0-rc.1", "v1.3.0", Ordering::Greater),
        ("v2.0.0", "v1.0.0", Ordering::Less),
        ("v1.3.0-rc.1", "v1.3.0-rc.2", Ordering::Greater),
        ("v1.3.0", "v1.3.0-rc.9", Ordering::Less),
        ("v0.6.0", "v0.6.1-nightly.20260904", Ordering::Greater),
        ("v0.6.1-nightly.20260904", "v0.6.1", Ordering::Greater),
        ("1.0.0+abc", "1.0.0+def", Ordering::Equal),
        ("1.0.0+001", "1.0.0", Ordering::Equal),
        ("invalid", "bad", Ordering::Equal),
        ("invalid", "0.0.0", Ordering::Greater),
        ("1", "1.0.0", Ordering::Equal),
        ("1.2", "1.2.0", Ordering::Equal),
        ("1.0.0-rc9", "1.0.0-rc10", Ordering::Less),
        ("1.0.0-rc.9", "1.0.0-rc.10", Ordering::Greater),
        ("1.0.0-1", "1.0.0-a", Ordering::Greater),
        ("1.0.0-a", "1.0.0-a.1", Ordering::Greater),
        (
            "999999999999999999999999999999.0.0",
            "1000000000000000000000000000000",
            Ordering::Greater,
        ),
        (
            "1.0.0-99999999999999999999999999999",
            "1.0.0-100000000000000000000000000000",
            Ordering::Greater,
        ),
    ] {
        assert_eq!(compare(current, latest), cmp, "{current} -> {latest}");
        assert_eq!(compare(latest, current), cmp.reverse());
    }
    for invalid in [
        "01.0.0",
        "1.01.0",
        "1.0.01",
        "1.0.0-01",
        "1.0.0-",
        "1.0.0+",
        "1.0.0+x+y",
        "1.0.0-a..b",
        "1.0.0+bad_",
        "1.0.0-ä",
        "1.2-rc.1",
        "1+build",
        "1.2.3.4",
        "vv1.0.0",
        "V1.0.0",
        "1.０.0",
    ] {
        assert_eq!(compare(invalid, "0.0.0"), Ordering::Greater, "{invalid}");
        assert_eq!(compare(invalid, "garbage"), Ordering::Equal, "{invalid}");
    }
}

#[test]
fn default_patterns_and_custom_channels() {
    let specs = default_channels();
    assert_eq!(specs.len(), 3);
    assert!(specs[0].pattern.is_none());
    let rc = lookup_channel(&specs, &Channel::rc())
        .unwrap()
        .pattern
        .as_ref()
        .unwrap();
    for tag in ["v1.2.3-rc.1", "v1.2.3-rc1", "v0.16.0-rc9"] {
        assert!(rc.is_match(tag));
    }
    for tag in [
        "v1.2.3",
        "v1.2.3-nightly.20260903",
        "v1.2.3-rc",
        "v1.2.3-rc1\n",
        "v１.2.3-rc1",
    ] {
        assert!(!rc.is_match(tag));
    }
    let nightly = specs[2].pattern.as_ref().unwrap();
    assert!(nightly.is_match("v0.6.1-nightly.20260904"));
    assert!(!nightly.is_match("v0.6.1-nightly.2026"));
    assert!(lookup_channel(&specs, &Channel::from("beta")).is_none());
    let custom = [ChannelSpec {
        name: "beta".into(),
        pattern: Some(Pattern::new(r"-beta\.").unwrap()),
        warning: String::new(),
    }];
    let source = FakeSource {
        releases: vec![rel("v2.0.0-beta.1", true), rel("v1.0.0", false)],
        ..Default::default()
    };
    assert_eq!(
        resolve(
            &CancellationToken::new(),
            &source,
            &"beta".into(),
            Some(&custom)
        )
        .unwrap(),
        "v2.0.0-beta.1"
    );
}

#[test]
fn resolution_preserves_newest_first_selection() {
    let token = CancellationToken::new();
    let src = FakeSource {
        latest: rel("v0.10.0", false),
        releases: fixture(),
        ..Default::default()
    };
    for ch in [Channel::stable(), "".into()] {
        assert_eq!(resolve(&token, &src, &ch, None).unwrap(), "v0.10.0");
    }
    assert_eq!(*src.calls.borrow(), ["latest", "latest"]);
    assert_eq!(
        resolve(&token, &src, &Channel::rc(), None).unwrap(),
        "v0.11.0-rc3"
    );
    assert_eq!(
        resolve(&token, &src, &Channel::nightly(), None).unwrap(),
        "v0.11.0-nightly.20260302"
    );
    let src = FakeSource {
        releases: vec![
            rel("v2.0.0", false),
            rel("v1.0.0-rc1", true),
            rel("v9.0.0-rc1", true),
        ],
        ..Default::default()
    };
    assert_eq!(resolve(&token, &src, &Channel::rc(), None).unwrap(), "v2.0.0");
    assert_eq!(*src.calls.borrow(), ["list:100"]);
}

#[test]
fn fallback_runs_with_and_without_matching_tags() {
    for matching in [true, false] {
        for (latest, expected) in [
            (
                rel("v0.19.0", false),
                if matching {
                    Some("v0.20.0-rc.101")
                } else {
                    Some("v0.19.0")
                },
            ),
            (rel("v0.21.0", false), Some("v0.21.0")),
            (
                rel("v0.21.0-rc.1", true),
                if matching {
                    Some("v0.20.0-rc.101")
                } else {
                    None
                },
            ),
            (
                rel("", false),
                if matching {
                    Some("v0.20.0-rc.101")
                } else {
                    None
                },
            ),
        ] {
            let releases = if matching {
                (2..=101)
                    .rev()
                    .map(|i| rel(&format!("v0.20.0-rc.{i}"), true))
                    .collect()
            } else {
                vec![rel("v0.20.0-nightly.20260903", true)]
            };
            let src = FakeSource {
                latest,
                releases,
                ..Default::default()
            };
            let result = resolve(&CancellationToken::new(), &src, &Channel::rc(), None);
            match expected {
                Some(tag) => assert_eq!(result.unwrap(), tag),
                None => assert!(matches!(result, Err(Error::NoRelease(_)))),
            }
            assert_eq!(*src.calls.borrow(), ["list:100", "latest"]);
        }
    }
    let src = source("v1.0.0");
    assert_eq!(
        resolve(&CancellationToken::new(), &src, &Channel::rc(), None).unwrap(),
        "v1.0.0"
    );
    let src = FakeSource {
        releases: vec![rel("v1.0.0", false)],
        ..Default::default()
    };
    assert_eq!(
        resolve(&CancellationToken::new(), &src, &Channel::nightly(), None).unwrap(),
        "v1.0.0"
    );
    assert_eq!(*src.calls.borrow(), ["list:100"]);
}

#[test]
fn resolution_errors_and_cancellation_boundaries() {
    let token = CancellationToken::new();
    assert!(matches!(
        resolve(&token, &source(""), &"beta".into(), None),
        Err(Error::UnknownChannel(_))
    ));
    for src in [
        FakeSource {
            fail_list: true,
            ..Default::default()
        },
        FakeSource {
            fail_latest: true,
            ..Default::default()
        },
    ] {
        let error = resolve(&token, &src, &Channel::rc(), None).unwrap_err();
        assert!(error.to_string().contains("offline"));
    }
    let src = FakeSource {
        cancel_list: true,
        ..Default::default()
    };
    assert!(
        resolve(&token, &src, &Channel::rc(), None)
            .unwrap_err()
            .is_cancelled()
    );
    assert_eq!(*src.calls.borrow(), ["list:100"]);
    assert!(
        resolve(&token, &src, &Channel::stable(), None)
            .unwrap_err()
            .is_cancelled()
    );
    assert_eq!(src.calls.borrow().len(), 1);
}

#[derive(Default)]
struct Recorder {
    events: std::rc::Rc<RefCell<Vec<String>>>,
    fail: bool,
}
impl Installer for Recorder {
    fn install(&mut self, _: &CancellationToken, tag: &str) -> Result<()> {
        self.events.borrow_mut().push(format!("install:{tag}"));
        if self.fail {
            Err(Error::external(io::Error::other("install failed")))
        } else {
            Ok(())
        }
    }
}

#[test]
fn traits_are_object_safe() {
    let _: Box<dyn Source> = Box::new(FakeSource::default());
    let _: Box<dyn Store> = Box::new(MemStore::default());
    let _: Box<dyn Installer> = Box::new(Recorder::default());
}
