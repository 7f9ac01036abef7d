//! Release channels, their specifications, and channel resolution.
use crate::cancel::CancellationToken;
use crate::error::{Error, Result};
use crate::semver::{version_order, Order};
use crate::source::{Release, Source, MAX_PER_PAGE};
use crate::version::compare_raw;
use regex::Error as RegexError;
use vstd::prelude::*;
use vstd::std_specs::convert::FromSpecImpl;
use vstd::string::*;

verus! {

/// Whether a pattern compiles: what `regex::Regex::new` decides.
pub uninterp spec fn regex_compiles(pattern: Seq<char>) -> bool;

/// Whether a compiled pattern matches somewhere in a text: what
/// `regex::Regex::is_match` answers.
pub uninterp spec fn regex_matches(pattern: Seq<char>, text: Seq<char>) -> bool;

/// `regex::Regex::new(pattern)` and, when it compiles, `Regex::is_match(text)`.
/// Claimed: the call succeeds exactly when the pattern compiles, and the answer
/// is the regex crate's match result for that pattern and text. Neither is
/// stated further: both are what the regex crate computes.
#[verifier::external_body]
fn regex_is_match(pattern: &str, text: &str) -> (r: std::result::Result<bool, RegexError>)
    ensures
        r is Ok <==> regex_compiles(pattern@),
        r matches Ok(b) ==> b == regex_matches(pattern@, text@),
{
    match regex::Regex::new(pattern) {
        Ok(re) => Ok(re.is_match(text)),
        Err(e) => Err(e),
    }
}

/// A string-backed release channel; custom names are supported.
#[derive(Debug, Eq, Hash)]
pub struct Channel(String);

impl Clone for Channel {
    fn clone(&self) -> (r: Self)
        ensures
            r@ == self@,
    {
        Channel(self.0.clone())
    }
}

impl View for Channel {
    type V = Seq<char>;

    closed spec fn view(&self) -> Seq<char> {
        self.0@
    }
}

/// `stable`, the channel of official releases.
pub open spec fn stable_name() -> Seq<char> {
    seq!['s', 't', 'a', 'b', 'l', 'e']
}

/// `rc`, the channel of release candidates.
pub open spec fn rc_name() -> Seq<char> {
    seq!['r', 'c']
}

/// `nightly`, the channel of nightly builds.
pub open spec fn nightly_name() -> Seq<char> {
    seq!['n', 'i', 'g', 'h', 't', 'l', 'y']
}

impl Channel {
    /// Official releases.
    pub fn stable() -> (r: Self)
        ensures
            r@ == stable_name(),
    {
        let r = Channel(String::from_str("stable"));
        proof {
            reveal_strlit("stable");
        }
        assert(r@ =~= stable_name());
        r
    }

    /// Release candidates.
    pub fn rc() -> (r: Self)
        ensures
            r@ == rc_name(),
    {
        let r = Channel(String::from_str("rc"));
        proof {
            reveal_strlit("rc");
        }
        assert(r@ =~= rc_name());
        r
    }

    /// Nightly builds.
    pub fn nightly() -> (r: Self)
        ensures
            r@ == nightly_name(),
    {
        let r = Channel(String::from_str("nightly"));
        proof {
            reveal_strlit("nightly");
        }
        assert(r@ =~= nightly_name());
        r
    }

    /// A channel of the given name.
    pub fn named(name: &str) -> (r: Self)
        ensures
            r@ == name@,
    {
        Channel(String::from_str(name))
    }

    /// Return the channel name.
    pub fn as_str(&self) -> (r: &str)
        ensures
            r@ == self@,
    {
        self.0.as_str()
    }

    /// The channel name as an owned string, as it is displayed.
    pub fn to_string(&self) -> (r: String)
        ensures
            r@ == self@,
    {
        self.0.clone()
    }
}

impl PartialEq for Channel {
    fn eq(&self, other: &Self) -> (r: bool) {
        self.0 == other.0
    }
}

impl vstd::std_specs::cmp::PartialEqSpecImpl for Channel {
    open spec fn obeys_eq_spec() -> bool {
        true
    }

    open spec fn eq_spec(&self, other: &Self) -> bool {
        self@ == other@
    }
}

impl Default for Channel {
    fn default() -> (r: Self)
        ensures
            r@ == stable_name(),
    {
        Channel::stable()
    }
}

impl From<&str> for Channel {
    fn from(s: &str) -> (r: Self)
        ensures
            r@ == s@,
    {
        Channel::named(s)
    }
}

impl FromSpecImpl<&str> for Channel {
    open spec fn obeys_from_spec() -> bool {
        false
    }

    open spec fn from_spec(s: &str) -> Self {
        arbitrary()
    }
}

impl From<String> for Channel {
    fn from(s: String) -> (r: Self)
        ensures
            r@ == s@,
    {
        Channel(s)
    }
}

impl FromSpecImpl<String> for Channel {
    open spec fn obeys_from_spec() -> bool {
        false
    }

    open spec fn from_spec(s: String) -> Self {
        arbitrary()
    }
}


/// A regular expression matched against release tags, kept as its source text.
#[derive(Clone, Debug)]
pub struct Pattern {
    source: String,
}

impl View for Pattern {
    type V = Seq<char>;

    closed spec fn view(&self) -> Seq<char> {
        self.source@
    }
}

/// A tag is selected by a pattern when the pattern compiles and matches it.
pub open spec fn pattern_selects(pattern: Seq<char>, tag: Seq<char>) -> bool {
    regex_compiles(pattern) && regex_matches(pattern, tag)
}

impl Pattern {
    /// Compile-check a regular expression; an invalid one is an error.
    pub fn new(source: &str) -> (r: Result<Pattern>)
        ensures
            r is Ok <==> regex_compiles(source@),
            r matches Ok(p) ==> p@ == source@,
            r matches Err(e) ==> e is Pattern,
    {
        match regex_is_match(source, "") {
            Ok(_) => Ok(Pattern { source: String::from_str(source) }),
            Err(e) => Err(Error::Pattern(e)),
        }
    }

    fn built_in(source: &str) -> (r: Pattern)
        ensures
            r@ == source@,
    {
        Pattern { source: String::from_str(source) }
    }

    /// The pattern's source text.
    pub fn as_str(&self) -> (r: &str)
        ensures
            r@ == self@,
    {
        self.source.as_str()
    }

    /// Whether the pattern matches somewhere in `text`.
    pub fn is_match(&self, text: &str) -> (r: bool)
        ensures
            r == pattern_selects(self@, text@),
    {
        match regex_is_match(self.source.as_str(), text) {
            Ok(b) => b,
            Err(_) => false,
        }
    }
}

/// Channel lookup pattern and optional warning before switching.
#[derive(Clone, Debug)]
pub struct ChannelSpec {
    /// Name used by storage, output, and command-line choices.
    pub name: Channel,
    /// `None` uses the source's latest release; otherwise match listed tags.
    pub pattern: Option<Pattern>,
    /// Empty means a switch requires no confirmation.
    pub warning: String,
}

/// What a channel specification holds.
pub struct SpecView {
    pub name: Seq<char>,
    pub pattern: Option<Seq<char>>,
    pub warning: Seq<char>,
}

pub open spec fn spec_view(s: ChannelSpec) -> SpecView {
    SpecView {
        name: s.name@,
        pattern: match s.pattern {
            Some(p) => Some(p@),
            None => None,
        },
        warning: s.warning@,
    }
}

pub open spec fn specs_view(specs: Seq<ChannelSpec>) -> Seq<SpecView> {
    specs.map_values(|s: ChannelSpec| spec_view(s))
}

/// The release-candidate tag pattern: `v1.2.3-rc.1` or `v1.2.3-rc1`.
pub open spec fn rc_pattern() -> Seq<char> {
    "^v[0-9]+\\.[0-9]+\\.[0-9]+-rc\\.?[0-9]+\\z"@
}

/// The nightly tag pattern: `v1.2.3-nightly.20260903`.
pub open spec fn nightly_pattern() -> Seq<char> {
    "^v[0-9]+\\.[0-9]+\\.[0-9]+-nightly\\.[0-9]{8}\\z"@
}

pub open spec fn rc_warning() -> Seq<char> {
    "Release candidates may contain bugs that have not been fully tested."@
}

pub open spec fn nightly_warning() -> Seq<char> {
    "Nightly builds come from the latest main branch and may be unstable."@
}

/// The stable, rc, and nightly specifications.
pub open spec fn default_specs() -> Seq<SpecView> {
    seq![
        SpecView { name: stable_name(), pattern: None, warning: Seq::empty() },
        SpecView { name: rc_name(), pattern: Some(rc_pattern()), warning: rc_warning() },
        SpecView { name: nightly_name(), pattern: Some(nightly_pattern()), warning: nightly_warning() },
    ]
}

/// The stable, rc, and nightly specifications.
pub fn default_channels() -> (r: Vec<ChannelSpec>)
    ensures
        specs_view(r@) == default_specs(),
{
    let mut r: Vec<ChannelSpec> = Vec::new();
    r.push(ChannelSpec { name: Channel::stable(), pattern: None, warning: String::new() });
    r.push(
        ChannelSpec {
            name: Channel::rc(),
            pattern: Some(Pattern::built_in("^v[0-9]+\\.[0-9]+\\.[0-9]+-rc\\.?[0-9]+\\z")),
            warning: String::from_str(
                "Release candidates may contain bugs that have not been fully tested.",
            ),
        },
    );
    r.push(
        ChannelSpec {
            name: Channel::nightly(),
            pattern: Some(Pattern::built_in("^v[0-9]+\\.[0-9]+\\.[0-9]+-nightly\\.[0-9]{8}\\z")),
            warning: String::from_str(
                "Nightly builds come from the latest main branch and may be unstable.",
            ),
        },
    );
    assert(specs_view(r@) =~= default_specs());
    r
}

/// Position `i` holds the first specification named `name`.
pub open spec fn first_named(specs: Seq<SpecView>, name: Seq<char>, i: int) -> bool {
    &&& 0 <= i < specs.len()
    &&& specs[i].name == name
    &&& forall|j: int| 0 <= j < i ==> specs[j].name != name
}

/// Some specification is named `name`.
pub open spec fn has_named(specs: Seq<SpecView>, name: Seq<char>) -> bool {
    exists|i: int| 0 <= i < specs.len() && specs[i].name == name
}

/// Find a configured channel by name: the first specification with that name.
pub fn lookup_channel<'a>(specs: &'a [ChannelSpec], channel: &Channel) -> (r: Option<
    &'a ChannelSpec,
>)
    ensures
        r is None <==> !has_named(specs_view(specs@), channel@),
        r matches Some(s) ==> exists|i: int|
            first_named(specs_view(specs@), channel@, i) && *s == specs@[i],
{
    match find_channel(specs, channel) {
        Some(i) => Some(&specs[i]),
        None => None,
    }
}

/// The channel resolution reads: an empty name means stable.
pub open spec fn effective_name(channel: Seq<char>) -> Seq<char> {
    if channel.len() == 0 {
        stable_name()
    } else {
        channel
    }
}

/// The tag of the first release, in list order, with a nonempty tag that the
/// pattern selects.
pub open spec fn first_match(releases: Seq<Release>, pattern: Seq<char>) -> Option<Seq<char>>
    decreases releases.len(),
{
    if releases.len() == 0 {
        None
    } else if releases[0].tag@.len() > 0 && pattern_selects(pattern, releases[0].tag@) {
        Some(releases[0].tag@)
    } else {
        first_match(releases.drop_first(), pattern)
    }
}

/// The tag of the first release, in list order, with a nonempty tag that is not
/// a prerelease.
pub open spec fn first_stable(releases: Seq<Release>) -> Option<Seq<char>>
    decreases releases.len(),
{
    if releases.len() == 0 {
        None
    } else if releases[0].tag@.len() > 0 && !releases[0].prerelease {
        Some(releases[0].tag@)
    } else {
        first_stable(releases.drop_first())
    }
}

pub open spec fn text_of(o: Option<String>) -> Option<Seq<char>> {
    match o {
        Some(s) => Some(s@),
        None => None,
    }
}

/// Scan one newest-first page: the first tag the pattern selects, and the first
/// stable tag. Releases with empty tags are skipped.
pub fn scan_releases(pattern: &Pattern, releases: &[Release]) -> (r: (Option<String>, Option<String>))
    ensures
        text_of(r.0) == first_match(releases@, pattern@),
        text_of(r.1) == first_stable(releases@),
{
    let mut matched: Option<String> = None;
    let mut stable: Option<String> = None;
    let mut i: usize = 0;
    let n = releases.len();
    assert(releases@.skip(0) =~= releases@);
    while i < n
        invariant
            i <= n == releases@.len(),
            matched is None ==> first_match(releases@, pattern@) == first_match(
                releases@.skip(i as int),
                pattern@,
            ),
            matched is Some ==> text_of(matched) == first_match(releases@, pattern@),
            stable is None ==> first_stable(releases@) == first_stable(releases@.skip(i as int)),
            stable is Some ==> text_of(stable) == first_stable(releases@),
        decreases n - i,
    {
        let r = &releases[i];
        assert(releases@.skip(i as int)[0] == releases@[i as int]);
        assert(releases@.skip(i as int).drop_first() =~= releases@.skip(i + 1));
        if !r.tag.as_str().is_empty() {
            if matched.is_none() && pattern.is_match(r.tag.as_str()) {
                matched = Some(r.tag.clone());
            }
            if stable.is_none() && !r.prerelease {
                stable = Some(r.tag.clone());
            }
            if matched.is_some() && stable.is_some() {
                return (matched, stable);
            }
        }
        i = i + 1;
    }
    (matched, stable)
}

/// The stable tag of a page is that of its earliest release (in the page's
/// newest-first order) with a nonempty tag that is not a prerelease; there is
/// none exactly when the page has no such release.
pub proof fn law_first_stable_is_earliest(releases: Seq<Release>)
    ensures
        first_stable(releases) matches Some(t) ==> exists|k: int|
            0 <= k < releases.len() && #[trigger] releases[k].tag@ == t && t.len() > 0
                && !releases[k].prerelease && forall|j: int|
                0 <= j < k ==> !(releases[j].tag@.len() > 0 && !releases[j].prerelease),
        first_stable(releases) is None <==> forall|j: int|
            0 <= j < releases.len() ==> !(releases[j].tag@.len() > 0 && !releases[j].prerelease),
    decreases releases.len(),
{
    if releases.len() > 0 {
        let rest = releases.drop_first();
        law_first_stable_is_earliest(rest);
        assert forall|j: int| 0 <= j < rest.len() implies rest[j] == releases[j + 1] by {}
        if !(releases[0].tag@.len() > 0 && !releases[0].prerelease) {
            if let Some(t) = first_stable(rest) {
                let k = choose|k: int|
                    0 <= k < rest.len() && #[trigger] rest[k].tag@ == t && t.len() > 0
                        && !rest[k].prerelease && forall|j: int|
                        0 <= j < k ==> !(rest[j].tag@.len() > 0 && !rest[j].prerelease);
                assert(releases[k + 1].tag@ == t);
                assert forall|j: int| 0 <= j < k + 1 implies !(releases[j].tag@.len() > 0
                    && !releases[j].prerelease) by {
                    if j > 0 {
                        assert(rest[j - 1] == releases[j]);
                    }
                }
            } else {
                assert forall|j: int| 0 <= j < releases.len() implies !(releases[j].tag@.len() > 0
                    && !releases[j].prerelease) by {
                    if j > 0 {
                        assert(rest[j - 1] == releases[j]);
                    }
                }
            }
        } else {
            assert(releases[0].tag@ == releases[0].tag@);
        }
    }
}

/// The channel's match on a page is the tag of its earliest release with a
/// nonempty tag that the pattern selects; there is none exactly when no
/// release of the page is selected.
pub proof fn law_first_match_is_earliest(releases: Seq<Release>, pattern: Seq<char>)
    ensures
        first_match(releases, pattern) matches Some(t) ==> exists|k: int|
            0 <= k < releases.len() && #[trigger] releases[k].tag@ == t && t.len() > 0
                && pattern_selects(pattern, t) && forall|j: int|
                0 <= j < k ==> !(releases[j].tag@.len() > 0 && pattern_selects(
                    pattern,
                    releases[j].tag@,
                )),
        first_match(releases, pattern) is None <==> forall|j: int|
            0 <= j < releases.len() ==> !(releases[j].tag@.len() > 0 && pattern_selects(
                pattern,
                releases[j].tag@,
            )),
    decreases releases.len(),
{
    if releases.len() > 0 {
        let rest = releases.drop_first();
        law_first_match_is_earliest(rest, pattern);
        assert forall|j: int| 0 <= j < rest.len() implies rest[j] == releases[j + 1] by {}
        if !(releases[0].tag@.len() > 0 && pattern_selects(pattern, releases[0].tag@)) {
            if let Some(t) = first_match(rest, pattern) {
                let k = choose|k: int|
                    0 <= k < rest.len() && #[trigger] rest[k].tag@ == t && t.len() > 0
                        && pattern_selects(pattern, t) && forall|j: int|
                        0 <= j < k ==> !(rest[j].tag@.len() > 0 && pattern_selects(
                            pattern,
                            rest[j].tag@,
                        ));
                assert(releases[k + 1].tag@ == t);
                assert forall|j: int| 0 <= j < k + 1 implies !(releases[j].tag@.len() > 0
                    && pattern_selects(pattern, releases[j].tag@)) by {
                    if j > 0 {
                        assert(rest[j - 1] == releases[j]);
                    }
                }
            } else {
                assert forall|j: int| 0 <= j < releases.len() implies !(releases[j].tag@.len() > 0
                    && pattern_selects(pattern, releases[j].tag@)) by {
                    if j > 0 {
                        assert(rest[j - 1] == releases[j]);
                    }
                }
            }
        } else {
            assert(releases[0].tag@ == releases[0].tag@);
        }
    }
}

/// The stable tag offered by the latest release, used when the page had none:
/// only a nonempty, non-prerelease tag counts.
pub fn stable_fallback(latest: Release) -> (r: Option<String>)
    ensures
        text_of(r) == (if !latest.prerelease && latest.tag@.len() > 0 {
            Some(latest.tag@)
        } else {
            None
        }),
{
    if !latest.prerelease && !latest.tag.as_str().is_empty() {
        Some(latest.tag)
    } else {
        None
    }
}

/// The tag resolution selects from the page's first match and the stable tag.
pub open spec fn selection(matched: Option<Seq<char>>, stable: Option<Seq<char>>) -> Option<
    Seq<char>,
> {
    match (matched, stable) {
        (Some(tag), Some(s)) => if version_order(s, tag) == Order::Greater {
            Some(s)
        } else {
            Some(tag)
        },
        (Some(tag), None) => Some(tag),
        (None, Some(s)) => Some(s),
        (None, None) => None,
    }
}

/// The selected tag is one of the two candidates and is never older than
/// either: with both, the stable tag is taken only when it is strictly newer,
/// and the match is kept on a tie.
pub proof fn law_selection_is_newest(matched: Option<Seq<char>>, stable: Option<Seq<char>>)
    ensures
        selection(matched, stable) is None <==> (matched is None && stable is None),
        selection(matched, stable) matches Some(t) ==> (matched == Some(t) || stable == Some(t)),
        selection(matched, stable) matches Some(t) ==> (matched matches Some(m) ==> version_order(
            t,
            m,
        ) != Order::Less),
        selection(matched, stable) matches Some(t) ==> (stable matches Some(s) ==> version_order(
            t,
            s,
        ) != Order::Less),
        matched matches Some(m) ==> (stable matches Some(s) ==> (selection(matched, stable)
            == Some(s) && s != m <==> version_order(s, m) == Order::Greater)),
{
    match (matched, stable) {
        (Some(m), Some(s)) => {
            crate::semver::lemma_version_order(s, m, m);
            crate::semver::lemma_version_order(m, s, s);
            crate::semver::lemma_version_order(m, m, m);
            crate::semver::lemma_version_order(s, s, s);
            assert(version_order(m, m) == Order::Equal);
            assert(version_order(s, s) == Order::Equal);
        },
        (Some(m), None) => {
            crate::semver::lemma_version_order(m, m, m);
        },
        (None, Some(s)) => {
            crate::semver::lemma_version_order(s, s, s);
        },
        (None, None) => {},
    }
}

/// Choose between the channel's match and the stable release: the stable one
/// wins only when it has strictly higher precedence; with neither, the channel
/// has no release.
pub fn pick_release(matched: Option<String>, stable: Option<String>, channel: &Channel) -> (r: Result<String>)
    ensures
        selection(text_of(matched), text_of(stable)) matches Some(t) ==> (r matches Ok(tag)
            && tag@ == t),
        selection(text_of(matched), text_of(stable)) is None ==> (r matches Err(
            Error::NoRelease(n),
        ) && n@ == channel@),
{
    match (matched, stable) {
        (Some(tag), Some(s)) => {
            if compare_raw(s.as_str(), tag.as_str()) == Order::Greater {
                Ok(s)
            } else {
                Ok(tag)
            }
        },
        (Some(tag), None) => Ok(tag),
        (None, Some(s)) => Ok(s),
        (None, None) => Err(Error::NoRelease(String::from_str(channel.as_str()))),
    }
}


/// The specifications resolution consults: the given ones, or the defaults.
pub open spec fn resolved_specs(specs: Option<&[ChannelSpec]>) -> Seq<SpecView> {
    match specs {
        Some(s) => specs_view(s@),
        None => default_specs(),
    }
}

/// The position of the first specification named `name`.
pub open spec fn named_index(specs: Seq<SpecView>, name: Seq<char>) -> int {
    choose|i: int| first_named(specs, name, i)
}

/// Only one position holds the first specification of a name.
pub proof fn lemma_named_index(specs: Seq<SpecView>, name: Seq<char>, i: int)
    requires
        first_named(specs, name, i),
    ensures
        named_index(specs, name) == i,
{
    let k = named_index(specs, name);
    assert(first_named(specs, name, k));
    if k < i {
        assert(specs[k].name == name);
    } else if k > i {
        assert(specs[i].name == name);
    }
}

/// The position of the first specification with the channel's name.
fn find_channel(specs: &[ChannelSpec], channel: &Channel) -> (r: Option<usize>)
    ensures
        r is None <==> !has_named(specs_view(specs@), channel@),
        r matches Some(i) ==> first_named(specs_view(specs@), channel@, i as int),
{
    let ghost views = specs_view(specs@);
    let mut i: usize = 0;
    while i < specs.len()
        invariant
            i <= specs.len(),
            views == specs_view(specs@),
            forall|j: int| 0 <= j < i ==> views[j].name != channel@,
        decreases specs.len() - i,
    {
        if specs[i].name == *channel {
            assert(first_named(views, channel@, i as int));
            return Some(i);
        }
        i = i + 1;
    }
    None
}

/// A name some specification has is had first at some position.
pub proof fn lemma_first_named_exists(specs: Seq<SpecView>, name: Seq<char>)
    requires
        has_named(specs, name),
    ensures
        first_named(specs, name, named_index(specs, name)),
    decreases specs.len(),
{
    if specs[0].name == name {
        assert(first_named(specs, name, 0));
    } else {
        let rest = specs.drop_first();
        let j = choose|j: int| 0 <= j < specs.len() && specs[j].name == name;
        assert(rest[j - 1].name == name);
        lemma_first_named_exists(rest, name);
        let k = named_index(rest, name);
        assert forall|m: int| 0 <= m < k + 1 implies specs[m].name != name by {
            if m > 0 {
                assert(specs[m] == rest[m - 1]);
            }
        }
        assert(first_named(specs, name, k + 1));
    }
}

/// Where a resolution stands. A `usize` is the position of the channel's
/// specification; a `Vec` is the page of releases that was listed.
pub enum ResolveState {
    /// Cancellation checked before the lookup.
    Starting,
    /// A channel without a pattern: reading the latest release.
    ReadingLatest,
    /// Cancellation checked after reading the latest release, holding it.
    AfterLatest(Result<Release>),
    /// A patterned channel: listing one page.
    Listing(usize),
    /// Cancellation checked after listing, holding the page.
    AfterList(usize, Result<Vec<Release>>),
    /// Cancellation checked after scanning the page.
    Scanned(usize, Vec<Release>),
    /// The page had no stable release: reading the latest release instead.
    Falling(usize, Vec<Release>),
    /// Cancellation checked after reading the fallback, holding it.
    AfterFallback(usize, Vec<Release>, Result<Release>),
    /// The resolution has finished.
    Done,
}

/// What the last action of a resolution produced.
pub enum ResolveEvent {
    TokenChecked(Result<()>),
    LatestRead(Result<Release>),
    ListRead(Result<Vec<Release>>),
}

/// What the resolution does next.
pub enum ResolveAction {
    /// Check the cancellation token (`TokenChecked`).
    CheckToken,
    /// Ask the source for its latest release (`LatestRead`).
    ReadLatest,
    /// Ask the source for one page of at most this many releases (`ListRead`).
    ReadList(usize),
    /// The resolution ends with this tag or error.
    Finish(Result<String>),
}

/// A resolution action as the values it carries; an outcome the resolution
/// makes up shows as the text it names.
pub enum ResolveActionView {
    CheckToken,
    ReadLatest,
    ReadList(usize),
    Resolved(Seq<char>),
    Unknown(Seq<char>),
    NoRelease(Seq<char>),
    BadPattern,
    Failed(Error),
}

pub open spec fn resolve_finish_view(r: Result<String>) -> ResolveActionView {
    match r {
        Ok(t) => ResolveActionView::Resolved(t@),
        Err(Error::UnknownChannel(n)) => ResolveActionView::Unknown(n@),
        Err(Error::NoRelease(n)) => ResolveActionView::NoRelease(n@),
        Err(Error::Pattern(_)) => ResolveActionView::BadPattern,
        Err(e) => ResolveActionView::Failed(e),
    }
}

pub open spec fn resolve_action_view(a: ResolveAction) -> ResolveActionView {
    match a {
        ResolveAction::CheckToken => ResolveActionView::CheckToken,
        ResolveAction::ReadLatest => ResolveActionView::ReadLatest,
        ResolveAction::ReadList(n) => ResolveActionView::ReadList(n),
        ResolveAction::Finish(r) => resolve_finish_view(r),
    }
}

/// An action that ends the resolution.
pub open spec fn resolve_finishes(a: ResolveActionView) -> bool {
    ||| a is Resolved
    ||| a is Unknown
    ||| a is NoRelease
    ||| a is BadPattern
    ||| a is Failed
}

/// Which event answers the action taken in each state.
pub open spec fn resolve_fits(s: ResolveState, e: ResolveEvent) -> bool {
    match s {
        ResolveState::Starting => e is TokenChecked,
        ResolveState::ReadingLatest => e is LatestRead,
        ResolveState::AfterLatest(_) => e is TokenChecked,
        ResolveState::Listing(_) => e is ListRead,
        ResolveState::AfterList(_, _) => e is TokenChecked,
        ResolveState::Scanned(_, _) => e is TokenChecked,
        ResolveState::Falling(_, _) => e is LatestRead,
        ResolveState::AfterFallback(_, _, _) => e is TokenChecked,
        ResolveState::Done => false,
    }
}

/// The action each state waits on.
pub open spec fn resolve_waits_on(s: ResolveState, a: ResolveActionView) -> bool {
    match s {
        ResolveState::Starting => a is CheckToken,
        ResolveState::ReadingLatest => a is ReadLatest,
        ResolveState::AfterLatest(_) => a is CheckToken,
        ResolveState::Listing(_) => a is ReadList,
        ResolveState::AfterList(_, _) => a is CheckToken,
        ResolveState::Scanned(_, _) => a is CheckToken,
        ResolveState::Falling(_, _) => a is ReadLatest,
        ResolveState::AfterFallback(_, _, _) => a is CheckToken,
        ResolveState::Done => resolve_finishes(a),
    }
}

/// The pattern of the specification at a position.
pub open spec fn pattern_at(specs: Seq<SpecView>, i: int) -> Option<Seq<char>> {
    specs[i].pattern
}

/// A state's position names a patterned specification.
pub open spec fn resolve_state_ok(specs: Seq<SpecView>, s: ResolveState) -> bool {
    match s {
        ResolveState::Listing(i) => i < specs.len() && pattern_at(specs, i as int) is Some,
        ResolveState::AfterList(i, _) => i < specs.len() && pattern_at(specs, i as int) is Some,
        ResolveState::Scanned(i, _) => i < specs.len() && pattern_at(specs, i as int) is Some,
        ResolveState::Falling(i, _) => i < specs.len() && pattern_at(specs, i as int) is Some,
        ResolveState::AfterFallback(i, _, _) => i < specs.len() && pattern_at(specs, i as int) is Some,
        _ => true,
    }
}

/// How far a state is from the end.
pub open spec fn resolve_rank(s: ResolveState) -> nat {
    match s {
        ResolveState::Starting => 8,
        ResolveState::ReadingLatest => 7,
        ResolveState::AfterLatest(_) => 6,
        ResolveState::Listing(_) => 5,
        ResolveState::AfterList(_, _) => 4,
        ResolveState::Scanned(_, _) => 3,
        ResolveState::Falling(_, _) => 2,
        ResolveState::AfterFallback(_, _, _) => 1,
        ResolveState::Done => 0,
    }
}

/// The outcome of choosing between the page's match and the stable tag.
pub open spec fn picked(matched: Option<Seq<char>>, stable: Option<Seq<char>>, channel: Seq<char>) -> ResolveActionView {
    match selection(matched, stable) {
        Some(t) => ResolveActionView::Resolved(t),
        None => ResolveActionView::NoRelease(channel),
    }
}

/// The stable tag the latest release offers.
pub open spec fn fallback_tag(latest: Release) -> Option<Seq<char>> {
    if !latest.prerelease && latest.tag@.len() > 0 {
        Some(latest.tag@)
    } else {
        None
    }
}

/// One step of a resolution of `channel` among `specs`. An empty channel name
/// means stable; a channel without a pattern takes the latest release; a
/// patterned channel lists one page of `MAX_PER_PAGE`, and reads the latest
/// release whenever the page has no stable one. Cancellation is checked first
/// and after every source call and scan, and wins over what came before it.
pub open spec fn resolve_next(specs: Seq<SpecView>, channel: Seq<char>, s: ResolveState, e: ResolveEvent) -> (
    ResolveState,
    ResolveActionView,
) {
    let name = effective_name(channel);
    match s {
        ResolveState::Starting => match e {
            ResolveEvent::TokenChecked(Err(err)) => (ResolveState::Done, resolve_finish_view(Err(err))),
            ResolveEvent::TokenChecked(Ok(())) => if !has_named(specs, name) {
                (ResolveState::Done, ResolveActionView::Unknown(name))
            } else {
                let i = named_index(specs, name);
                match pattern_at(specs, i) {
                    None => (ResolveState::ReadingLatest, ResolveActionView::ReadLatest),
                    Some(p) => if !regex_compiles(p) {
                        (ResolveState::Done, ResolveActionView::BadPattern)
                    } else {
                        (ResolveState::Listing(i as usize), ResolveActionView::ReadList(MAX_PER_PAGE))
                    },
                }
            },
            _ => (s, ResolveActionView::CheckToken),
        },
        ResolveState::ReadingLatest => match e {
            ResolveEvent::LatestRead(res) => (ResolveState::AfterLatest(res), ResolveActionView::CheckToken),
            _ => (s, ResolveActionView::CheckToken),
        },
        ResolveState::AfterLatest(res) => match e {
            ResolveEvent::TokenChecked(Err(err)) => (ResolveState::Done, resolve_finish_view(Err(err))),
            ResolveEvent::TokenChecked(Ok(())) => match res {
                Err(err) => (ResolveState::Done, resolve_finish_view(Err(err))),
                Ok(release) => (ResolveState::Done, resolve_finish_view(Ok(release.tag))),
            },
            _ => (s, ResolveActionView::CheckToken),
        },
        ResolveState::Listing(i) => match e {
            ResolveEvent::ListRead(res) => (ResolveState::AfterList(i, res), ResolveActionView::CheckToken),
            _ => (s, ResolveActionView::CheckToken),
        },
        ResolveState::AfterList(i, res) => match e {
            ResolveEvent::TokenChecked(Err(err)) => (ResolveState::Done, resolve_finish_view(Err(err))),
            ResolveEvent::TokenChecked(Ok(())) => match res {
                Err(err) => (ResolveState::Done, resolve_finish_view(Err(err))),
                Ok(page) => (ResolveState::Scanned(i, page), ResolveActionView::CheckToken),
            },
            _ => (s, ResolveActionView::CheckToken),
        },
        ResolveState::Scanned(i, page) => match e {
            ResolveEvent::TokenChecked(Err(err)) => (ResolveState::Done, resolve_finish_view(Err(err))),
            ResolveEvent::TokenChecked(Ok(())) => {
                let p = pattern_at(specs, i as int)->0;
                if first_stable(page@) is Some {
                    (ResolveState::Done, picked(first_match(page@, p), first_stable(page@), name))
                } else {
                    (ResolveState::Falling(i, page), ResolveActionView::ReadLatest)
                }
            },
            _ => (s, ResolveActionView::CheckToken),
        },
        ResolveState::Falling(i, page) => match e {
            ResolveEvent::LatestRead(res) => (
                ResolveState::AfterFallback(i, page, res),
                ResolveActionView::CheckToken,
            ),
            _ => (s, ResolveActionView::CheckToken),
        },
        ResolveState::AfterFallback(i, page, res) => match e {
            ResolveEvent::TokenChecked(Err(err)) => (ResolveState::Done, resolve_finish_view(Err(err))),
            ResolveEvent::TokenChecked(Ok(())) => match res {
                Err(err) => (ResolveState::Done, resolve_finish_view(Err(err))),
                Ok(latest) => {
                    let p = pattern_at(specs, i as int)->0;
                    (ResolveState::Done, picked(first_match(page@, p), fallback_tag(latest), name))
                },
            },
            _ => (s, ResolveActionView::CheckToken),
        },
        ResolveState::Done => (s, ResolveActionView::CheckToken),
    }
}

/// Where a resolution of `channel` among `specs` stands after `events`, and
/// the action it takes next; events that do not answer the action are ignored.
pub open spec fn resolve_run(specs: Seq<SpecView>, channel: Seq<char>, events: Seq<ResolveEvent>) -> (
    ResolveState,
    ResolveActionView,
)
    decreases events.len(),
{
    if events.len() == 0 {
        (ResolveState::Starting, ResolveActionView::CheckToken)
    } else {
        let (s, a) = resolve_run(specs, channel, events.drop_last());
        if resolve_fits(s, events.last()) {
            resolve_next(specs, channel, s, events.last())
        } else {
            (s, a)
        }
    }
}

/// Every failed cancellation check in `events` reported a cancellation.
pub open spec fn cancellations_only(events: Seq<ResolveEvent>) -> bool {
    forall|k: int|
        0 <= k < events.len() ==> (#[trigger] events[k] matches ResolveEvent::TokenChecked(Err(e))
            ==> e is Cancelled)
}

/// What a call made for an event gave: the token's check, the source's latest
/// release, or its page of `MAX_PER_PAGE` releases.
pub open spec fn answers<S: Source + ?Sized>(
    source: &S,
    token: &CancellationToken,
    event: ResolveEvent,
) -> bool {
    match event {
        ResolveEvent::TokenChecked(res) => call_ensures(CancellationToken::check, (token,), res),
        ResolveEvent::LatestRead(res) => call_ensures(S::latest, (source, token), res),
        ResolveEvent::ListRead(res) => call_ensures(S::list, (source, token, MAX_PER_PAGE), res),
    }
}

/// Every event is what the corresponding call on `token` or `source` gave.
pub open spec fn answered_by<S: Source + ?Sized>(
    source: &S,
    token: &CancellationToken,
    events: Seq<ResolveEvent>,
) -> bool {
    forall|k: int| 0 <= k < events.len() ==> #[trigger] answers(source, token, events[k])
}

/// The first step of a resolution: check for cancellation.
pub fn resolve_start() -> (r: (ResolveState, ResolveAction))
    ensures
        r.0 is Starting,
        r.1 is CheckToken,
{
    (ResolveState::Starting, ResolveAction::CheckToken)
}

/// One step of a resolution: the next state and action.
pub fn resolve_step(
    specs: &[ChannelSpec],
    channel: &Channel,
    state: ResolveState,
    event: ResolveEvent,
) -> (r: (ResolveState, ResolveAction))
    requires
        resolve_fits(state, event),
        resolve_state_ok(specs_view(specs@), state),
    ensures
        (r.0, resolve_action_view(r.1)) == resolve_next(specs_view(specs@), channel@, state, event),
        resolve_state_ok(specs_view(specs@), r.0),
{
    let ghost views = specs_view(specs@);
    let stable = Channel::stable();
    let ch: &Channel = if channel.as_str().is_empty() {
        &stable
    } else {
        channel
    };
    assert(ch@ == effective_name(channel@));
    match state {
        ResolveState::Starting => match event {
            ResolveEvent::TokenChecked(Err(err)) => (ResolveState::Done, ResolveAction::Finish(Err(err))),
            ResolveEvent::TokenChecked(Ok(())) => match find_channel(specs, ch) {
                None => (
                    ResolveState::Done,
                    ResolveAction::Finish(Err(Error::UnknownChannel(String::from_str(ch.as_str())))),
                ),
                Some(i) => {
                    proof {
                        lemma_named_index(views, ch@, i as int);
                    }
                    match &specs[i].pattern {
                        None => (ResolveState::ReadingLatest, ResolveAction::ReadLatest),
                        Some(pattern) => match regex_is_match(pattern.as_str(), "") {
                            Err(e) => (ResolveState::Done, ResolveAction::Finish(Err(Error::Pattern(e)))),
                            Ok(_) => (ResolveState::Listing(i), ResolveAction::ReadList(MAX_PER_PAGE)),
                        },
                    }
                },
            },
            _ => (ResolveState::Done, ResolveAction::CheckToken),
        },
        ResolveState::ReadingLatest => match event {
            ResolveEvent::LatestRead(res) => (ResolveState::AfterLatest(res), ResolveAction::CheckToken),
            _ => (ResolveState::Done, ResolveAction::CheckToken),
        },
        ResolveState::AfterLatest(res) => match event {
            ResolveEvent::TokenChecked(Err(err)) => (ResolveState::Done, ResolveAction::Finish(Err(err))),
            ResolveEvent::TokenChecked(Ok(())) => match res {
                Err(err) => (ResolveState::Done, ResolveAction::Finish(Err(err))),
                Ok(release) => (ResolveState::Done, ResolveAction::Finish(Ok(release.tag))),
            },
            _ => (ResolveState::Done, ResolveAction::CheckToken),
        },
        ResolveState::Listing(i) => match event {
            ResolveEvent::ListRead(res) => (ResolveState::AfterList(i, res), ResolveAction::CheckToken),
            _ => (ResolveState::Done, ResolveAction::CheckToken),
        },
        ResolveState::AfterList(i, res) => match event {
            ResolveEvent::TokenChecked(Err(err)) => (ResolveState::Done, ResolveAction::Finish(Err(err))),
            ResolveEvent::TokenChecked(Ok(())) => match res {
                Err(err) => (ResolveState::Done, ResolveAction::Finish(Err(err))),
                Ok(page) => (ResolveState::Scanned(i, page), ResolveAction::CheckToken),
            },
            _ => (ResolveState::Done, ResolveAction::CheckToken),
        },
        ResolveState::Scanned(i, page) => match event {
            ResolveEvent::TokenChecked(Err(err)) => (ResolveState::Done, ResolveAction::Finish(Err(err))),
            ResolveEvent::TokenChecked(Ok(())) => match &specs[i].pattern {
                Some(pattern) => {
                    let (matched, found) = scan_releases(pattern, page.as_slice());
                    if found.is_some() {
                        (ResolveState::Done, ResolveAction::Finish(pick_release(matched, found, ch)))
                    } else {
                        (ResolveState::Falling(i, page), ResolveAction::ReadLatest)
                    }
                },
                None => (ResolveState::Done, ResolveAction::CheckToken),
            },
            _ => (ResolveState::Done, ResolveAction::CheckToken),
        },
        ResolveState::Falling(i, page) => match event {
            ResolveEvent::LatestRead(res) => (
                ResolveState::AfterFallback(i, page, res),
                ResolveAction::CheckToken,
            ),
            _ => (ResolveState::Done, ResolveAction::CheckToken),
        },
        ResolveState::AfterFallback(i, page, res) => match event {
            ResolveEvent::TokenChecked(Err(err)) => (ResolveState::Done, ResolveAction::Finish(Err(err))),
            ResolveEvent::TokenChecked(Ok(())) => match res {
                Err(err) => (ResolveState::Done, ResolveAction::Finish(Err(err))),
                Ok(latest) => match &specs[i].pattern {
                    Some(pattern) => {
                        let (matched, _) = scan_releases(pattern, page.as_slice());
                        let found = stable_fallback(latest);
                        (ResolveState::Done, ResolveAction::Finish(pick_release(matched, found, ch)))
                    },
                    None => (ResolveState::Done, ResolveAction::CheckToken),
                },
            },
            _ => (ResolveState::Done, ResolveAction::CheckToken),
        },
        ResolveState::Done => (ResolveState::Done, ResolveAction::CheckToken),
    }
}

/// A fitting event moves the run one step, to a state nearer the end whose
/// action is the one it waits on.
pub proof fn lemma_resolve_run_push(
    specs: Seq<SpecView>,
    channel: Seq<char>,
    events: Seq<ResolveEvent>,
    e: ResolveEvent,
)
    requires
        resolve_fits(resolve_run(specs, channel, events).0, e),
    ensures
        resolve_run(specs, channel, events.push(e)) == resolve_next(
            specs,
            channel,
            resolve_run(specs, channel, events).0,
            e,
        ),
{
    assert(events.push(e).drop_last() =~= events);
}

/// Each step takes the action its new state waits on, nearer the end.
pub proof fn lemma_resolve_step_shape(specs: Seq<SpecView>, channel: Seq<char>, s: ResolveState, e: ResolveEvent)
    requires
        specs.len() <= usize::MAX,
        resolve_fits(s, e),
        resolve_state_ok(specs, s),
    ensures
        resolve_waits_on(resolve_next(specs, channel, s, e).0, resolve_next(specs, channel, s, e).1),
        resolve_rank(resolve_next(specs, channel, s, e).0) < resolve_rank(s),
        resolve_state_ok(specs, resolve_next(specs, channel, s, e).0),
{
    if s is Starting && has_named(specs, effective_name(channel)) {
        lemma_first_named_exists(specs, effective_name(channel));
    }
}

proof fn lemma_cancellations_prefix(events: Seq<ResolveEvent>)
    requires
        cancellations_only(events),
        events.len() > 0,
    ensures
        cancellations_only(events.drop_last()),
        events.last() matches ResolveEvent::TokenChecked(Err(e)) ==> e is Cancelled,
{
    assert forall|k: int| 0 <= k < events.drop_last().len() implies (
    #[trigger] events.drop_last()[k] matches ResolveEvent::TokenChecked(Err(e)) ==> e is Cancelled) by {
        assert(events.drop_last()[k] == events[k]);
    }
    assert(events.last() == events[events.len() - 1]);
}

/// A channel that no specification names is answered `UnknownChannel`, naming
/// the channel looked up, right after the first cancellation check: the source
/// is never asked.
pub proof fn law_resolve_unknown_channel(specs: Seq<SpecView>, channel: Seq<char>, events: Seq<ResolveEvent>)
    requires
        !has_named(specs, effective_name(channel)),
        cancellations_only(events),
    ensures
        resolve_run(specs, channel, events).0 is Starting || resolve_run(specs, channel, events).0 is Done,
        resolve_run(specs, channel, events).0 is Done ==> (resolve_run(specs, channel, events).1
            == ResolveActionView::Unknown(effective_name(channel)) || resolve_run(specs, channel, events).1
            == ResolveActionView::Failed(Error::Cancelled)),
    decreases events.len(),
{
    if events.len() > 0 {
        lemma_cancellations_prefix(events);
        law_resolve_unknown_channel(specs, channel, events.drop_last());
    }
}

/// A resolution lists exactly one page of `MAX_PER_PAGE` releases, asked for
/// only at its start.
pub proof fn law_resolve_lists_one_page(
    specs: Seq<SpecView>,
    channel: Seq<char>,
    s: ResolveState,
    e: ResolveEvent,
)
    requires
        resolve_fits(s, e),
    ensures
        resolve_next(specs, channel, s, e).1 matches ResolveActionView::ReadList(n) ==> n
            == MAX_PER_PAGE && s is Starting,
{
}

/// After the page is scanned and the cancellation check passes, the latest
/// release is consulted exactly when the page has no stable release, whether
/// or not a tag matched.
pub proof fn law_resolve_fallback_iff_no_stable(
    specs: Seq<SpecView>,
    channel: Seq<char>,
    i: usize,
    page: Vec<Release>,
)
    ensures
        resolve_next(
            specs,
            channel,
            ResolveState::Scanned(i, page),
            ResolveEvent::TokenChecked(Ok(())),
        ).1 is ReadLatest <==> first_stable(page@) is None,
{
}

/// A channel without a pattern resolves to the tag of the latest release, as
/// the source gave it.
pub proof fn law_resolve_unpatterned_takes_latest(
    specs: Seq<SpecView>,
    channel: Seq<char>,
    release: Release,
)
    ensures
        resolve_next(
            specs,
            channel,
            ResolveState::AfterLatest(Ok(release)),
            ResolveEvent::TokenChecked(Ok(())),
        ) == (ResolveState::Done, ResolveActionView::Resolved(release.tag@)),
{
}

proof fn lemma_first_match_found(releases: Seq<Release>, pattern: Seq<char>)
    ensures
        first_match(releases, pattern) matches Some(t) ==> t.len() > 0 && pattern_selects(pattern, t),
    decreases releases.len(),
{
    if releases.len() > 0 {
        lemma_first_match_found(releases.drop_first(), pattern);
    }
}

/// A patterned channel resolves to a nonempty tag that its pattern selects, or
/// to a stable tag: the page's first stable tag or, when the page had none, the
/// latest release's non-prerelease tag. The stable tag is taken over a match
/// only when it has strictly higher precedence.
pub proof fn law_resolve_match_or_stable(
    specs: Seq<SpecView>,
    channel: Seq<char>,
    s: ResolveState,
    e: ResolveEvent,
)
    requires
        resolve_fits(s, e),
        resolve_state_ok(specs, s),
        s is Scanned || s is AfterFallback,
    ensures
        resolve_next(specs, channel, s, e).1 matches ResolveActionView::Resolved(t) ==> {
            let p = match s {
                ResolveState::Scanned(i, _) => pattern_at(specs, i as int)->0,
                ResolveState::AfterFallback(i, _, _) => pattern_at(specs, i as int)->0,
                _ => Seq::empty(),
            };
            let page = match s {
                ResolveState::Scanned(_, page) => page@,
                ResolveState::AfterFallback(_, page, _) => page@,
                _ => Seq::empty(),
            };
            let stable = match s {
                ResolveState::Scanned(_, page) => first_stable(page@),
                ResolveState::AfterFallback(_, _, latest) => match latest {
                    Ok(l) => fallback_tag(l),
                    Err(_) => None,
                },
                _ => None,
            };
            &&& t.len() > 0
            &&& (Some(t) == first_match(page, p) && pattern_selects(p, t)) || Some(t) == stable
            &&& (first_match(page, p) is Some && stable is Some) ==> ((t == stable->0
                <==> version_order(stable->0, first_match(page, p)->0) == Order::Greater)
                || first_match(page, p)->0 == stable->0)
        },
{
    match s {
        ResolveState::Scanned(i, page) => {
            lemma_first_match_found(page@, pattern_at(specs, i as int)->0);
            lemma_first_stable_nonempty(page@);
        },
        ResolveState::AfterFallback(i, page, _) => {
            lemma_first_match_found(page@, pattern_at(specs, i as int)->0);
        },
        _ => {},
    }
}

/// The resolution's own `NoRelease` names the channel looked up, and comes
/// only when the page had no matching tag and neither the page nor the latest
/// release offered a stable one.
pub proof fn law_resolve_no_release(
    specs: Seq<SpecView>,
    channel: Seq<char>,
    s: ResolveState,
    e: ResolveEvent,
)
    requires
        e matches ResolveEvent::TokenChecked(Ok(_)),
        s is Scanned || s matches ResolveState::AfterFallback(_, _, Ok(_)),
    ensures
        resolve_next(specs, channel, s, e).1 matches ResolveActionView::NoRelease(n) ==> {
            &&& n == effective_name(channel)
            &&& s matches ResolveState::AfterFallback(i, page, latest)
            &&& first_match(page@, pattern_at(specs, i as int)->0) is None
            &&& latest matches Ok(l) && fallback_tag(l) is None
        },
{
}

/// A failed cancellation check ends the resolution with its error, whatever the
/// source answered before it.
pub proof fn law_resolve_cancellation_wins(
    specs: Seq<SpecView>,
    channel: Seq<char>,
    s: ResolveState,
    err: Error,
)
    requires
        resolve_fits(s, ResolveEvent::TokenChecked(Err(err))),
    ensures
        resolve_next(specs, channel, s, ResolveEvent::TokenChecked(Err(err))) == (
            ResolveState::Done,
            resolve_finish_view(Err(err)),
        ),
{
}

/// Resolve a channel from one newest-first page of at most 100 releases.
///
/// `None` selects the default specifications; an empty channel means stable.
/// The result is what the resolution steps (`resolve_next`) give for the
/// answers that the token and the source gave: a channel without a pattern
/// takes the latest release; a patterned channel takes the page's first
/// matching tag and its first stable tag, consults the latest release whenever
/// the page had no stable tag, and picks between the two.
pub fn resolve<S: Source + ?Sized>(
    token: &CancellationToken,
    source: &S,
    channel: &Channel,
    specs: Option<&[ChannelSpec]>,
) -> (r: Result<String>)
    ensures
        exists|events: Seq<ResolveEvent>|
            answered_by(source, token, events) && cancellations_only(events) && #[trigger] resolve_run(
                resolved_specs(specs),
                channel@,
                events,
            ) == (ResolveState::Done, resolve_finish_view(r)),
{
    let defaults = default_channels();
    let list: &[ChannelSpec] = match specs {
        Some(s) => s,
        None => defaults.as_slice(),
    };
    let ghost views = specs_view(list@);
    assert(views == resolved_specs(specs));
    assert(list.len() == list@.len());
    let (mut state, mut action) = resolve_start();
    let ghost mut events: Seq<ResolveEvent> = Seq::empty();
    loop
        invariant
            views == specs_view(list@),
            views == resolved_specs(specs),
            views.len() <= usize::MAX,
            resolve_run(views, channel@, events) == (state, resolve_action_view(action)),
            cancellations_only(events),
            answered_by(source, token, events),
            resolve_action_view(action) matches ResolveActionView::ReadList(n) ==> n == MAX_PER_PAGE,
            resolve_waits_on(state, resolve_action_view(action)),
            resolve_state_ok(views, state),
        decreases resolve_rank(state),
    {
        let event = match action {
            ResolveAction::CheckToken => ResolveEvent::TokenChecked(token.check()),
            ResolveAction::ReadLatest => ResolveEvent::LatestRead(source.latest(token)),
            ResolveAction::ReadList(n) => ResolveEvent::ListRead(source.list(token, n)),
            ResolveAction::Finish(r) => {
                return r;
            },
        };
        proof {
            lemma_resolve_run_push(views, channel@, events, event);
            lemma_resolve_step_shape(views, channel@, state, event);
            let pushed = events.push(event);
            assert forall|k: int| 0 <= k < pushed.len() implies (#[trigger] pushed[k] matches ResolveEvent::TokenChecked(Err(e)) ==> e is Cancelled) by {
                if k < events.len() {
                    assert(pushed[k] == events[k]);
                }
            }
            assert forall|k: int| 0 <= k < pushed.len() implies #[trigger] answers(
                source,
                token,
                pushed[k],
            ) by {
                if k < events.len() {
                    assert(pushed[k] == events[k]);
                }
            }
            events = pushed;
        }
        let (next, act) = resolve_step(list, channel, state, event);
        proof {
            law_resolve_lists_one_page(views, channel@, state, event);
        }
        state = next;
        action = act;
    }
}

proof fn lemma_first_stable_nonempty(releases: Seq<Release>)
    ensures
        first_stable(releases) matches Some(t) ==> t.len() > 0,
    decreases releases.len(),
{
    if releases.len() > 0 {
        lemma_first_stable_nonempty(releases.drop_first());
    }
}

} // verus!
