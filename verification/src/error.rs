//! The library's error type.
use regex::Error as RegexError;
use reqwest::Error as HttpError;
use serde_json::Error as JsonError;
use crate::supervise::ExitReport;
use vstd::prelude::*;
use vstd::string::*;

verus! {

#[verifier::external_type_specification]
#[verifier::external_body]
pub struct ExIoError(std::io::Error);

#[verifier::external_type_specification]
#[verifier::external_body]
pub struct ExHttpError(HttpError);

#[verifier::external_type_specification]
#[verifier::external_body]
pub struct ExJsonError(JsonError);

#[verifier::external_type_specification]
#[verifier::external_body]
pub struct ExRegexError(RegexError);

/// Result returned by self-update operations and consumer adapters.
pub type Result<T> = std::result::Result<T, Error>;

/// Failures keep their underlying causes.
#[derive(Debug)]
#[non_exhaustive]
pub enum Error {
    /// Cooperative cancellation was requested.
    Cancelled,
    /// An installation was requested without an installer.
    NoInstaller,
    /// Channel persistence is unavailable.
    NoStore,
    /// The requested channel has no specification.
    UnknownChannel(String),
    /// A channel switch was rejected; includes the configured choices.
    InvalidChannel {
        /// Requested name.
        channel: String,
        /// Comma-separated configured names.
        choices: String,
    },
    /// No release was available for the channel.
    NoRelease(String),
    /// A setting is unusable.
    Configuration(String),
    /// A channel pattern is not a valid regular expression.
    Pattern(RegexError),
    /// Update lookup failed.
    Check(Box<Error>),
    /// Reading persisted configuration failed.
    ReadChannel(Box<Error>),
    /// Persisting configuration failed.
    SaveChannel(Box<Error>),
    /// A pre-install hook failed.
    PreInstall(Box<Error>),
    /// Writing or flushing a user-facing stream failed.
    Output(std::io::Error),
    /// HTTP request construction, transport, or body reading failed.
    Http(HttpError),
    /// GitHub returned a status other than 200.
    HttpStatus {
        /// Request path without credentials.
        path: String,
        /// HTTP response status.
        status: u16,
    },
    /// GitHub returned an invalid JSON payload.
    Decode {
        /// Request path.
        path: String,
        /// JSON decoding failure.
        source: JsonError,
    },
    /// A tag fails the script installer's validation.
    UnsafeTag(String),
    /// The script installer supports macOS and Linux only.
    UnsupportedPlatform,
    /// Spawning, monitoring, or stopping the install process failed.
    Process(std::io::Error),
    /// The install pipeline exited unsuccessfully; holds how it exited.
    InstallExit(ExitReport),
    /// A consumer-provided implementation failed.
    External(std::io::Error),
}

/// Whether an error, looking through the workflow wrappers, is a cancellation.
pub open spec fn is_cancellation(e: Error) -> bool
    decreases e,
{
    match e {
        Error::Cancelled => true,
        Error::Check(inner) => is_cancellation(*inner),
        Error::ReadChannel(inner) => is_cancellation(*inner),
        Error::SaveChannel(inner) => is_cancellation(*inner),
        Error::PreInstall(inner) => is_cancellation(*inner),
        _ => false,
    }
}

/// The decimal digits of `n`.
pub open spec fn decimal(n: nat) -> Seq<char>
    decreases n,
{
    if n < 10 {
        seq![digit_char(n)]
    } else {
        decimal(n / 10) + seq![digit_char(n % 10)]
    }
}

pub open spec fn digit_char(d: nat) -> char {
    if d == 0 {
        '0'
    } else if d == 1 {
        '1'
    } else if d == 2 {
        '2'
    } else if d == 3 {
        '3'
    } else if d == 4 {
        '4'
    } else if d == 5 {
        '5'
    } else if d == 6 {
        '6'
    } else if d == 7 {
        '7'
    } else if d == 8 {
        '8'
    } else {
        '9'
    }
}

/// What `{:?}` prints for a string: the text quoted, with escapes.
pub uninterp spec fn debug_quoted(s: Seq<char>) -> Seq<char>;

/// `<str as Debug>::fmt`, through `format!`: the quoted, escaped text.
#[verifier::external_body]
fn quoted(s: &str) -> (r: String)
    ensures
        r@ == debug_quoted(s@),
{
    format!("{:?}", s)
}

/// The `Display` text of an I/O error. The text depends on the error value,
/// which Verus cannot see into, so nothing is stated of it.
#[verifier::external_body]
fn io_text(e: &std::io::Error) -> String {
    format!("{}", e)
}

/// The `Display` text of a reqwest error; nothing is stated of it.
#[verifier::external_body]
fn http_text(e: &HttpError) -> String {
    format!("{}", e)
}

/// The `Display` text of a serde_json error; nothing is stated of it.
#[verifier::external_body]
fn json_text(e: &JsonError) -> String {
    format!("{}", e)
}

/// The `Display` text of a regex error; nothing is stated of it.
#[verifier::external_body]
fn regex_text(e: &RegexError) -> String {
    format!("{}", e)
}

fn digit_text(d: u16) -> (r: &'static str)
    requires
        d < 10,
    ensures
        r@ == seq![digit_char(d as nat)],
{
    proof {
        reveal_strlit("0");
        reveal_strlit("1");
        reveal_strlit("2");
        reveal_strlit("3");
        reveal_strlit("4");
        reveal_strlit("5");
        reveal_strlit("6");
        reveal_strlit("7");
        reveal_strlit("8");
        reveal_strlit("9");
    }
    if d == 0 {
        "0"
    } else if d == 1 {
        "1"
    } else if d == 2 {
        "2"
    } else if d == 3 {
        "3"
    } else if d == 4 {
        "4"
    } else if d == 5 {
        "5"
    } else if d == 6 {
        "6"
    } else if d == 7 {
        "7"
    } else if d == 8 {
        "8"
    } else {
        "9"
    }
}

/// A number below a thousand has at most three digits.
pub proof fn lemma_decimal_short(n: nat)
    requires
        n < 1000,
    ensures
        decimal(n).len() <= 3,
{
    if n >= 10 {
        let m = n / 10;
        assert(m < 100);
        if m >= 10 {
            assert(m / 10 < 10);
            assert(decimal(m / 10).len() == 1);
            assert(decimal(m).len() == 2);
        } else {
            assert(decimal(m).len() == 1);
        }
    }
}

/// The decimal text of `n`.
pub fn decimal_text(n: u16) -> (r: String)
    ensures
        r@ == decimal(n as nat),
    decreases n,
{
    if n < 10 {
        String::from_str(digit_text(n))
    } else {
        let head = decimal_text(n / 10);
        head.concat(digit_text(n % 10))
    }
}

/// The message an error displays: `text` is it. Where a cause of an outside
/// crate is shown, only the prefix before it is fixed.
pub open spec fn message_is(e: Error, text: Seq<char>) -> bool
    decreases e,
{
    match e {
        Error::Cancelled => text == "selfupdate: cancelled"@,
        Error::NoInstaller => text == "selfupdate: no installer configured"@,
        Error::NoStore => text == "selfupdate: channel store not configured"@,
        Error::UnknownChannel(c) => text == "unknown channel "@ + debug_quoted(c@),
        Error::InvalidChannel { channel, choices } => text == "invalid channel "@ + debug_quoted(
            channel@,
        ) + ": must be one of "@ + choices@,
        Error::NoRelease(c) => text == "no "@ + c@ + " release found"@,
        Error::Configuration(m) => text == "selfupdate: "@ + m@,
        Error::Pattern(_) => "invalid channel pattern: "@.is_prefix_of(text),
        Error::Check(inner) => "check for updates: "@.is_prefix_of(text) && message_is(
            *inner,
            text.skip("check for updates: "@.len() as int),
        ),
        Error::ReadChannel(inner) => "read update channel: "@.is_prefix_of(text) && message_is(
            *inner,
            text.skip("read update channel: "@.len() as int),
        ),
        Error::SaveChannel(inner) => "save update channel: "@.is_prefix_of(text) && message_is(
            *inner,
            text.skip("save update channel: "@.len() as int),
        ),
        Error::PreInstall(inner) => "pre-install step failed: "@.is_prefix_of(text) && message_is(
            *inner,
            text.skip("pre-install step failed: "@.len() as int),
        ),
        Error::Output(_) => "selfupdate: output failed: "@.is_prefix_of(text),
        Error::Http(_) => "github: "@.is_prefix_of(text),
        Error::HttpStatus { path, status } => text == "github: "@ + path@ + " returned status "@
            + decimal(status as nat),
        Error::Decode { path, source } => ("github: decode "@ + path@ + ": "@).is_prefix_of(text),
        Error::UnsafeTag(t) => text == "selfupdate: refusing to install unsafe tag "@
            + debug_quoted(t@),
        Error::UnsupportedPlatform => text
            == "selfupdate: script installation is unsupported on this platform"@,
        Error::Process(_) => "install script failed: "@.is_prefix_of(text),
        Error::InstallExit(status) => text == "install script failed: "@ + status.text@,
        Error::External(_) => true,
    }
}

fn prefixed(prefix: &str, rest: &str) -> (r: String)
    ensures
        r@ == prefix@ + rest@,
{
    String::from_str(prefix).concat(rest)
}

impl Error {
    /// Wrap a consumer error; `std::io::Error::other` carries any error type.
    pub fn external(error: std::io::Error) -> (r: Self)
        ensures
            r == Error::External(error),
    {
        Error::External(error)
    }

    /// Whether this error, including workflow wrappers, represents cancellation.
    pub fn is_cancelled(&self) -> (r: bool)
        ensures
            r == is_cancellation(*self),
        decreases self,
    {
        match self {
            Error::Cancelled => true,
            Error::Check(e) => e.is_cancelled(),
            Error::ReadChannel(e) => e.is_cancelled(),
            Error::SaveChannel(e) => e.is_cancelled(),
            Error::PreInstall(e) => e.is_cancelled(),
            _ => false,
        }
    }

    /// The message describing this error, including the messages of its causes.
    pub fn to_string(&self) -> (r: String)
        ensures
            message_is(*self, r@),
        decreases self,
    {
        match self {
            Error::Cancelled => String::from_str("selfupdate: cancelled"),
            Error::NoInstaller => String::from_str("selfupdate: no installer configured"),
            Error::NoStore => String::from_str("selfupdate: channel store not configured"),
            Error::UnknownChannel(c) => prefixed("unknown channel ", quoted(c.as_str()).as_str()),
            Error::InvalidChannel { channel, choices } => {
                let q = quoted(channel.as_str());
                let r = prefixed("invalid channel ", q.as_str()).concat(": must be one of ").concat(
                    choices.as_str(),
                );
                assert(r@ =~= "invalid channel "@ + q@ + ": must be one of "@ + choices@);
                r
            },
            Error::NoRelease(c) => {
                let r = prefixed("no ", c.as_str()).concat(" release found");
                assert(r@ =~= "no "@ + c@ + " release found"@);
                r
            },
            Error::Configuration(m) => prefixed("selfupdate: ", m.as_str()),
            Error::Pattern(e) => with_prefix("invalid channel pattern: ", regex_text(e)),
            Error::Check(e) => with_prefix("check for updates: ", e.to_string()),
            Error::ReadChannel(e) => with_prefix("read update channel: ", e.to_string()),
            Error::SaveChannel(e) => with_prefix("save update channel: ", e.to_string()),
            Error::PreInstall(e) => with_prefix("pre-install step failed: ", e.to_string()),
            Error::Output(e) => with_prefix("selfupdate: output failed: ", io_text(e)),
            Error::Http(e) => with_prefix("github: ", http_text(e)),
            Error::HttpStatus { path, status } => {
                let d = decimal_text(*status);
                let r = prefixed("github: ", path.as_str()).concat(" returned status ").concat(
                    d.as_str(),
                );
                assert(r@ =~= "github: "@ + path@ + " returned status "@ + d@);
                r
            },
            Error::Decode { path, source } => {
                let head = prefixed("github: decode ", path.as_str()).concat(": ");
                let r = with_prefix(head.as_str(), json_text(source));
                assert(head@ =~= "github: decode "@ + path@ + ": "@);
                r
            },
            Error::UnsafeTag(t) => prefixed(
                "selfupdate: refusing to install unsafe tag ",
                quoted(t.as_str()).as_str(),
            ),
            Error::UnsupportedPlatform => String::from_str(
                "selfupdate: script installation is unsupported on this platform",
            ),
            Error::Process(e) => with_prefix("install script failed: ", io_text(e)),
            Error::InstallExit(status) => prefixed("install script failed: ", status.text.as_str()),
            Error::External(e) => io_text(e),
        }
    }
}

/// `prefix` followed by `rest`, with the facts that `message_is` reads.
fn with_prefix(prefix: &str, rest: String) -> (r: String)
    ensures
        r@ == prefix@ + rest@,
        prefix@.is_prefix_of(r@),
        r@.skip(prefix@.len() as int) == rest@,
{
    let r = String::from_str(prefix).concat(rest.as_str());
    assert(r@.subrange(0, prefix@.len() as int) =~= prefix@);
    assert(r@.skip(prefix@.len() as int) =~= rest@);
    r
}

} // verus!
