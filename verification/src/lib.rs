//! Synchronous self-update with release channels: version precedence, channel
//! resolution over a release source, and the decisions of the update and
//! channel-switch workflows.
//!
//! `compare(current, latest)` returns `Ordering::Greater` when an update is
//! available, following Go's `x/mod/semver` precedence. Channels select
//! releases from a [`Source`]; the update and switch workflows, GitHub
//! requests and the script installer's supervision of its process are step
//! functions whose actions (output, prompts, hooks, network and process work)
//! the caller performs.

pub mod cancel;
pub mod channel;
pub mod command;
pub mod error;
pub mod installer;
pub mod semver;
pub mod source;
pub mod store;
pub mod supervise;
pub mod text;
pub mod version;
pub mod workflow;

pub use cancel::CancellationToken;
pub use channel::{
    default_channels, lookup_channel, pick_release, resolve, scan_releases, stable_fallback,
    Channel, ChannelSpec, Pattern,
};
pub use error::{Error, Result};
pub use installer::{check_script_request, is_safe_tag, Installer};
pub use semver::Order;
pub use source::{
    bearer_token, check_status, latest_release, page_limit, page_releases, releases_url,
    request_path, Release, ReleaseEntry, Source, MAX_PER_PAGE,
};
pub use store::{MemStore, Store};
pub use version::{compare, normalize_version};
pub use workflow::{
    accepts, channel_choices, channel_from_store, channel_line, check_release, check_result,
    current_channel, switch_event_fits, switch_start, switch_step, update_event_fits,
    update_start, update_step, CheckResult, SwitchAction, SwitchConfig, SwitchEvent, SwitchState,
    UpdateAction, UpdateConfig, UpdateEvent, UpdateOptions, UpdateState,
};
