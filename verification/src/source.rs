//! Releases, release sources, and the decisions of the GitHub source.
use crate::cancel::CancellationToken;
use crate::error::{decimal, decimal_text, lemma_decimal_short, Error, Result};
use reqwest::Error as HttpError;
use serde_json::Error as JsonError;
use vstd::prelude::*;
use vstd::string::*;

verus! {

/// GitHub's single-page ceiling. Release lookup never paginates.
pub const MAX_PER_PAGE: usize = 100;

/// The subset of a forge release used by channel resolution.
#[derive(Clone, Debug, Default, PartialEq, Eq)]
pub struct Release {
    /// Release tag as published, passed unchanged to the installer.
    pub tag: String,
    /// Whether the forge marks this as a prerelease.
    pub prerelease: bool,
}

/// A release provider. Lists must be newest first and exclude drafts.
pub trait Source {
    /// Read the forge's latest release.
    fn latest(&self, token: &CancellationToken) -> Result<Release>;

    /// Read one page, preserving newest-first order.
    fn list(&self, token: &CancellationToken, limit: usize) -> Result<Vec<Release>>;
}

impl<T: Source + ?Sized> Source for &T {
    fn latest(&self, token: &CancellationToken) -> (r: Result<Release>)
        ensures
            call_ensures(T::latest, (*self, token), r),
    {
        (**self).latest(token)
    }

    fn list(&self, token: &CancellationToken, limit: usize) -> (r: Result<Vec<Release>>)
        ensures
            call_ensures(T::list, (*self, token, limit), r),
    {
        (**self).list(token, limit)
    }
}

impl<T: Source + ?Sized> Source for Box<T> {
    fn latest(&self, token: &CancellationToken) -> (r: Result<Release>)
        ensures
            call_ensures(T::latest, (&**self, token), r),
    {
        (**self).latest(token)
    }

    fn list(&self, token: &CancellationToken, limit: usize) -> (r: Result<Vec<Release>>)
        ensures
            call_ensures(T::list, (&**self, token, limit), r),
    {
        (**self).list(token, limit)
    }
}

/// The fields of one GitHub release object that the source reads; absent
/// fields read as empty or false.
#[derive(Clone, Debug, Default, PartialEq, Eq)]
pub struct ReleaseEntry {
    pub tag_name: String,
    pub prerelease: bool,
    pub draft: bool,
}

/// The page size requested: `limit` when it is within `1..=MAX_PER_PAGE`,
/// otherwise the maximum.
pub fn page_limit(limit: usize) -> (r: usize)
    ensures
        r == (if 1 <= limit <= MAX_PER_PAGE {
            limit
        } else {
            MAX_PER_PAGE
        }),
{
    if 1 <= limit && limit <= MAX_PER_PAGE {
        limit
    } else {
        MAX_PER_PAGE
    }
}

/// The release a `latest` lookup offers: a draft is never offered, so it reads
/// as an empty, non-prerelease release.
pub fn latest_release(entry: ReleaseEntry) -> (r: Release)
    ensures
        entry.draft ==> r.tag@.len() == 0 && !r.prerelease,
        !entry.draft ==> r.tag@ == entry.tag_name@ && r.prerelease == entry.prerelease,
{
    if entry.draft {
        Release { tag: String::new(), prerelease: false }
    } else {
        Release { tag: entry.tag_name, prerelease: entry.prerelease }
    }
}

/// A release entry as the (tag, prerelease, draft) it holds.
pub open spec fn entry_view(e: ReleaseEntry) -> (Seq<char>, bool, bool) {
    (e.tag_name@, e.prerelease, e.draft)
}

/// A release as the (tag, prerelease) it holds.
pub open spec fn release_view(r: Release) -> (Seq<char>, bool) {
    (r.tag@, r.prerelease)
}

/// The non-draft entries, in order, as releases.
pub open spec fn published(entries: Seq<(Seq<char>, bool, bool)>) -> Seq<(Seq<char>, bool)>
    decreases entries.len(),
{
    if entries.len() == 0 {
        Seq::empty()
    } else {
        let rest = published(entries.drop_last());
        let e = entries.last();
        if e.2 {
            rest
        } else {
            rest.push((e.0, e.1))
        }
    }
}

/// The releases of one listed page: drafts removed, order kept.
pub fn page_releases(entries: Vec<ReleaseEntry>) -> (r: Vec<Release>)
    ensures
        r@.map_values(|x: Release| release_view(x)) == published(
            entries@.map_values(|e: ReleaseEntry| entry_view(e)),
        ),
        r@.map_values(|x: Release| release_view(x)) == entries@.filter(
            |e: ReleaseEntry| !e.draft,
        ).map_values(|e: ReleaseEntry| (e.tag_name@, e.prerelease)),
{
    let mut out: Vec<Release> = Vec::new();
    let mut i: usize = 0;
    let n = entries.len();
    let ghost all = entries@.map_values(|e: ReleaseEntry| entry_view(e));
    assert(all.take(0) =~= Seq::<(Seq<char>, bool, bool)>::empty());
    assert(out@.map_values(|x: Release| release_view(x)) =~= Seq::<(Seq<char>, bool)>::empty());
    while i < n
        invariant
            i <= n == entries.len(),
            all == entries@.map_values(|e: ReleaseEntry| entry_view(e)),
            out@.map_values(|x: Release| release_view(x)) == published(all.take(i as int)),
        decreases n - i,
    {
        let e = &entries[i];
        let ghost before = out@.map_values(|x: Release| release_view(x));
        assert(all.take(i + 1).drop_last() =~= all.take(i as int));
        assert(all.take(i + 1).last() == entry_view(*e));
        if !e.draft {
            out.push(Release { tag: e.tag_name.clone(), prerelease: e.prerelease });
            assert(out@.map_values(|x: Release| release_view(x)) =~= before.push(
                (e.tag_name@, e.prerelease),
            ));
        }
        i = i + 1;
    }
    assert(all.take(n as int) =~= all);
    proof {
        lemma_published_entries(entries@);
    }
    out
}

/// Publishing the views of entries is filtering out the drafts and keeping the
/// (tag, prerelease) of the others.
proof fn lemma_published_entries(entries: Seq<ReleaseEntry>)
    ensures
        published(entries.map_values(|e: ReleaseEntry| entry_view(e))) == entries.filter(
            |e: ReleaseEntry| !e.draft,
        ).map_values(|e: ReleaseEntry| (e.tag_name@, e.prerelease)),
    decreases entries.len(),
{
    let f = |e: ReleaseEntry| entry_view(e);
    let g = |e: ReleaseEntry| (e.tag_name@, e.prerelease);
    let keep = |e: ReleaseEntry| !e.draft;
    let views = entries.map_values(f);
    reveal(Seq::filter);
    if entries.len() == 0 {
        assert(views =~= Seq::<(Seq<char>, bool, bool)>::empty());
        assert(entries.filter(keep).map_values(g) =~= Seq::<(Seq<char>, bool)>::empty());
    } else {
        let rest = entries.drop_last();
        lemma_published_entries(rest);
        assert(views.drop_last() =~= rest.map_values(f));
        assert(views.last() == entry_view(entries.last()));
        if entries.last().draft {
            assert(entries.filter(keep) == rest.filter(keep));
        } else {
            assert(entries.filter(keep) == rest.filter(keep).push(entries.last()));
            assert(rest.filter(keep).push(entries.last()).map_values(g) =~= rest.filter(
                keep,
            ).map_values(g).push(g(entries.last())));
        }
    }
}

/// A page lists exactly the entries that are not drafts, in their order, each
/// as its tag and prerelease flag: no draft is ever listed and no published
/// entry is dropped.
pub proof fn law_published_drops_only_drafts(entries: Seq<(Seq<char>, bool, bool)>)
    ensures
        published(entries) == entries.filter(|e: (Seq<char>, bool, bool)| !e.2).map_values(
            |e: (Seq<char>, bool, bool)| (e.0, e.1),
        ),
        forall|i: int|
            #![trigger published(entries)[i]]
            0 <= i < published(entries).len() ==> exists|j: int|
                #![trigger entries[j]]
                0 <= j < entries.len() && !entries[j].2 && published(entries)[i] == (
                    entries[j].0,
                    entries[j].1,
                ),
{
    lemma_published_filter(entries);
    lemma_published_from_non_drafts(entries);
}

proof fn lemma_published_filter(entries: Seq<(Seq<char>, bool, bool)>)
    ensures
        published(entries) == entries.filter(|e: (Seq<char>, bool, bool)| !e.2).map_values(
            |e: (Seq<char>, bool, bool)| (e.0, e.1),
        ),
    decreases entries.len(),
{
    let keep = |e: (Seq<char>, bool, bool)| !e.2;
    let g = |e: (Seq<char>, bool, bool)| (e.0, e.1);
    reveal(Seq::filter);
    if entries.len() == 0 {
        assert(entries.filter(keep).map_values(g) =~= Seq::<(Seq<char>, bool)>::empty());
    } else {
        let rest = entries.drop_last();
        lemma_published_filter(rest);
        if entries.last().2 {
            assert(entries.filter(keep) == rest.filter(keep));
        } else {
            assert(entries.filter(keep) == rest.filter(keep).push(entries.last()));
            assert(rest.filter(keep).push(entries.last()).map_values(g) =~= rest.filter(
                keep,
            ).map_values(g).push(g(entries.last())));
        }
    }
}

proof fn lemma_published_from_non_drafts(entries: Seq<(Seq<char>, bool, bool)>)
    ensures
        forall|i: int|
            #![trigger published(entries)[i]]
            0 <= i < published(entries).len() ==> exists|j: int|
                #![trigger entries[j]]
                0 <= j < entries.len() && !entries[j].2 && published(entries)[i] == (
                    entries[j].0,
                    entries[j].1,
                ),
    decreases entries.len(),
{
    if entries.len() > 0 {
        let rest = entries.drop_last();
        lemma_published_from_non_drafts(rest);
        let p = published(entries);
        let q = published(rest);
        assert forall|i: int| #![trigger p[i]] 0 <= i < p.len() implies exists|j: int|
            #![trigger entries[j]]
            0 <= j < entries.len() && !entries[j].2 && p[i] == (entries[j].0, entries[j].1) by {
            if entries.last().2 {
                assert(p == q);
            } else {
                assert(p == q.push((entries.last().0, entries.last().1)));
            }
            if i < q.len() {
                assert(p[i] == q[i]);
                assert(q[i] == q[i]);
                let j = choose|j: int|
                    #![trigger rest[j]]
                    0 <= j < rest.len() && !rest[j].2 && q[i] == (rest[j].0, rest[j].1);
                assert(rest[j] == entries[j]);
            } else {
                let j = entries.len() - 1;
                assert(entries[j] == entries.last());
            }
        }
    }
}

/// The bearer token sent: none when the configured one is empty.
pub fn bearer_token(token: String) -> (r: Option<String>)
    ensures
        token@.len() == 0 ==> r is None,
        token@.len() > 0 ==> r == Some(token),
{
    if token.as_str().is_empty() {
        None
    } else {
        Some(token)
    }
}

/// Configuration checks made before a GitHub source is built: a nonzero
/// timeout, then a nonempty owner and repository.
fn check_source_settings(timeout_is_zero: bool, owner: &str, repo: &str) -> (r: Result<()>)
    ensures
        timeout_is_zero ==> (r matches Err(Error::Configuration(m))
            && m@ == "request timeout must be nonzero"@),
        !timeout_is_zero && (owner@.len() == 0 || repo@.len() == 0) ==> (r matches Err(
            Error::Configuration(m),
        ) && m@ == "GitHub owner and repository must be nonempty"@),
        !timeout_is_zero && owner@.len() > 0 && repo@.len() > 0 ==> r is Ok,
{
    if timeout_is_zero {
        return Err(Error::Configuration(String::from_str("request timeout must be nonzero")));
    }
    if owner.is_empty() || repo.is_empty() {
        return Err(
            Error::Configuration(String::from_str("GitHub owner and repository must be nonempty")),
        );
    }
    Ok(())
}

/// The API base must be an HTTP(S) URL without a query or fragment.
fn check_api_base(scheme: &str, has_query: bool, has_fragment: bool) -> (r: Result<()>)
    ensures
        (scheme@ == "http"@ || scheme@ == "https"@) && !has_query && !has_fragment <==> r is Ok,
        r matches Err(e) ==> (e matches Error::Configuration(m)
            && m@ == "API base must be an HTTP(S) URL without a query or fragment"@),
{
    let s = scheme.to_owned();
    let http = String::from_str("http");
    let https = String::from_str("https");
    if (s == http || s == https) && !has_query && !has_fragment {
        Ok(())
    } else {
        Err(
            Error::Configuration(
                String::from_str("API base must be an HTTP(S) URL without a query or fragment"),
            ),
        )
    }
}

/// A response is accepted only with status 200; otherwise the error names the
/// request path and status.
pub fn check_status(path: &str, status: u16) -> (r: Result<()>)
    ensures
        status == 200 ==> r is Ok,
        status != 200 ==> (r matches Err(Error::HttpStatus { path: p, status: s }) && p@ == path@
            && s == status),
{
    if status == 200 {
        Ok(())
    } else {
        Err(Error::HttpStatus { path: path.to_owned(), status })
    }
}

/// The request path reported in errors: the path, then `?` and the query if any.
pub fn request_path(path: &str, query: Option<&str>) -> (r: String)
    ensures
        query is None ==> r@ == path@,
        query matches Some(q) ==> r@ == path@ + "?"@ + q@,
{
    match query {
        Some(q) => {
            let r = path.to_owned().concat("?").concat(q);
            assert(r@ =~= path@ + "?"@ + q@);
            r
        },
        None => path.to_owned(),
    }
}


/// What `reqwest::Url::parse` (the url crate's WHATWG parser) makes of a text:
/// `None` when it fails, else the scheme, the query and fragment if present,
/// and whether the URL cannot be a base (has no path segments).
pub uninterp spec fn url_parts(text: Seq<char>) -> Option<
    (Seq<char>, Option<Seq<char>>, Option<Seq<char>>, bool),
>;

/// The text of the URL parsed from `url`, with a trailing empty path segment
/// removed.
pub uninterp spec fn url_without_empty_segment(url: Seq<char>) -> Seq<char>;

/// The text of the URL parsed from `url` with `segment` appended to its path.
pub uninterp spec fn url_with_segment(url: Seq<char>, segment: Seq<char>) -> Seq<char>;

/// The text of the URL parsed from `url` with the form-encoded pair
/// `key=value` appended to its query.
pub uninterp spec fn url_with_query_pair(url: Seq<char>, key: Seq<char>, value: Seq<char>) -> Seq<
    char,
>;

/// A bound on the characters a URL is built from: each encodes to at most
/// twelve bytes, and the url crate keeps offsets in 32 bits, panicking beyond.
pub open spec fn url_text_limit() -> nat {
    0x1000_0000
}

pub open spec fn texts_of(o: Option<String>) -> Option<Seq<char>> {
    match o {
        Some(s) => Some(s@),
        None => None,
    }
}

/// `reqwest::Url::parse` with its `scheme`, `query`, `fragment` and
/// `cannot_be_a_base` read out. Claimed: success exactly when the url crate
/// parses the text, with the parts it reports; a parse failure is carried in an
/// I/O error as the consumer-error variant carries causes.
#[verifier::external_body]
fn parse_url_parts(text: &str) -> (r: std::result::Result<
    (String, Option<String>, Option<String>, bool),
    std::io::Error,
>)
    ensures
        r is Ok <==> url_parts(text@) is Some,
        r matches Ok(p) ==> url_parts(text@) == Some((p.0@, texts_of(p.1), texts_of(p.2), p.3)),
{
    match reqwest::Url::parse(text) {
        Ok(url) => Ok(
            (
                url.scheme().to_owned(),
                url.query().map(String::from),
                url.fragment().map(String::from),
                url.cannot_be_a_base(),
            ),
        ),
        Err(e) => Err(std::io::Error::other(e)),
    }
}

/// `reqwest::Url::parse`, then `path_segments_mut()` and `pop_if_empty()`,
/// then the URL's text. Claimed: `None` exactly when the text does not parse or
/// the URL cannot be a base, else the url crate's result for this text. The
/// requirement rules out a text too long for the url crate's 32-bit offsets.
#[verifier::external_body]
fn pop_empty_segment(url: &str) -> (r: Option<String>)
    requires
        url@.len() < url_text_limit(),
    ensures
        r is Some <==> (url_parts(url@) matches Some(p) && !p.3),
        r matches Some(u) ==> u@ == url_without_empty_segment(url@),
{
    let mut parsed = reqwest::Url::parse(url).ok()?;
    parsed.path_segments_mut().ok()?.pop_if_empty();
    Some(parsed.to_string())
}

/// `reqwest::Url::parse`, then `path_segments_mut()` and `push(segment)`, then
/// the URL's text. Claimed: `None` exactly when the text does not parse or the
/// URL cannot be a base, else the url crate's result for these arguments.
#[verifier::external_body]
fn push_segment(url: &str, segment: &str) -> (r: Option<String>)
    requires
        url@.len() + segment@.len() < url_text_limit(),
    ensures
        r is Some <==> (url_parts(url@) matches Some(p) && !p.3),
        r matches Some(u) ==> u@ == url_with_segment(url@, segment@),
{
    let mut parsed = reqwest::Url::parse(url).ok()?;
    parsed.path_segments_mut().ok()?.push(segment);
    Some(parsed.to_string())
}

/// `reqwest::Url::parse`, then `query_pairs_mut().append_pair(key, value)`,
/// then the URL's text. Claimed: `None` exactly when the text does not parse,
/// else the url crate's result for these arguments.
#[verifier::external_body]
fn append_query_pair(url: &str, key: &str, value: &str) -> (r: Option<String>)
    requires
        url@.len() + key@.len() + value@.len() < url_text_limit(),
    ensures
        r is Some <==> url_parts(url@) is Some,
        r matches Some(u) ==> u@ == url_with_query_pair(url@, key@, value@),
{
    let mut parsed = reqwest::Url::parse(url).ok()?;
    parsed.query_pairs_mut().append_pair(key, value);
    Some(parsed.to_string())
}

/// Appending one path segment to a URL built so far: refused when the text has
/// grown past the url crate's limit, or no longer parses as a URL that can be a
/// base (`Err` holds the message).
pub open spec fn appended(url: Seq<char>, segment: Seq<char>) -> std::result::Result<Seq<char>, Seq<char>> {
    if url.len() + segment.len() >= url_text_limit() {
        Err("URL is too long"@)
    } else if url_parts(url) matches Some(p) && !p.3 {
        Ok(url_with_segment(url, segment))
    } else {
        Err("API base cannot contain path segments"@)
    }
}

pub open spec fn then_appended(built: std::result::Result<Seq<char>, Seq<char>>, segment: Seq<char>) -> std::result::Result<
    Seq<char>,
    Seq<char>,
> {
    match built {
        Ok(url) => appended(url, segment),
        Err(m) => Err(m),
    }
}

/// The releases endpoint below an API base: a trailing empty segment of the
/// base's path removed, then `repos`, the owner, the repository and `releases`
/// appended as path segments, in that order.
pub open spec fn releases_path(base: Seq<char>, owner: Seq<char>, repo: Seq<char>) -> std::result::Result<
    Seq<char>,
    Seq<char>,
> {
    then_appended(
        then_appended(
            then_appended(appended(url_without_empty_segment(base), "repos"@), owner),
            repo,
        ),
        "releases"@,
    )
}

/// Append one path segment to `url` (see `appended`).
fn append_segment(url: Result<String>, segment: &str) -> (r: Result<String>)
    ensures
        url matches Err(e) ==> r == Err::<String, Error>(e),
        url matches Ok(u) ==> match appended(u@, segment@) {
            Ok(t) => r matches Ok(v) && v@ == t,
            Err(m) => r matches Err(Error::Configuration(n)) && n@ == m,
        },
{
    let url = match url {
        Ok(u) => u,
        Err(e) => {
            return Err(e);
        },
    };
    let length = url.as_str().unicode_len();
    let extra = segment.unicode_len();
    if length >= 0x1000_0000 || extra >= 0x1000_0000 - length {
        let m = String::from_str("URL is too long");
        proof {
            reveal_strlit("URL is too long");
        }
        return Err(Error::Configuration(m));
    }
    match push_segment(url.as_str(), segment) {
        Some(t) => Ok(t),
        None => {
            let m = String::from_str("API base cannot contain path segments");
            proof {
                reveal_strlit("API base cannot contain path segments");
            }
            Err(Error::Configuration(m))
        },
    }
}

/// The URL of the latest release: `latest` appended to the releases URL's
/// path; `None` when that URL does not parse or cannot be a base.
pub fn latest_url(releases: &str) -> (r: Option<String>)
    requires
        releases@.len() < 0x0fff_ff00,
    ensures
        r is Some <==> (url_parts(releases@) matches Some(p) && !p.3),
        r matches Some(u) ==> u@ == url_with_segment(releases@, "latest"@),
{
    let segment = "latest";
    proof {
        reveal_strlit("latest");
    }
    push_segment(releases, segment)
}

/// The URL of one page of releases: `per_page` set to the page size that
/// `page_limit` gives; `None` when the releases URL does not parse.
pub fn page_url(releases: &str, limit: usize) -> (r: Option<String>)
    requires
        releases@.len() < 0x0fff_ff00,
    ensures
        r is Some <==> url_parts(releases@) is Some,
        r matches Some(u) ==> u@ == url_with_query_pair(
            releases@,
            "per_page"@,
            decimal(if 1 <= limit <= MAX_PER_PAGE {
                limit as nat
            } else {
                MAX_PER_PAGE as nat
            }),
        ),
{
    let size = page_limit(limit);
    let text = decimal_text(size as u16);
    proof {
        lemma_decimal_short(size as nat);
        reveal_strlit("per_page");
    }
    append_query_pair(releases, "per_page", text.as_str())
}

/// The releases endpoint of a GitHub source: the settings are checked
/// (`check_source_settings`), the API base must parse as an HTTP(S) URL without
/// a query or fragment (`check_api_base`) and with path segments, and the path
/// is extended as `releases_path` says.
pub fn releases_url(api_base: &str, owner: &str, repo: &str, timeout_is_zero: bool) -> (r: Result<
    String,
>)
    requires
        api_base@.len() + owner@.len() + repo@.len() < url_text_limit(),
    ensures
        timeout_is_zero || owner@.len() == 0 || repo@.len() == 0 ==> (r matches Err(e)
            && e is Configuration),
        !(timeout_is_zero || owner@.len() == 0 || repo@.len() == 0) ==> match url_parts(
            api_base@,
        ) {
            None => r matches Err(e) && e is External,
            Some(p) => if !((p.0 == "http"@ || p.0 == "https"@) && p.1 is None && p.2 is None) {
                r matches Err(Error::Configuration(m))
                    && m@ == "API base must be an HTTP(S) URL without a query or fragment"@
            } else if p.3 {
                r matches Err(Error::Configuration(m))
                    && m@ == "API base cannot contain path segments"@
            } else {
                match releases_path(api_base@, owner@, repo@) {
                    Ok(t) => r matches Ok(u) && u@ == t,
                    Err(m) => r matches Err(Error::Configuration(n)) && n@ == m,
                }
            },
        },
{
    if let Err(e) = check_source_settings(timeout_is_zero, owner, repo) {
        return Err(e);
    }
    let parts = match parse_url_parts(api_base) {
        Ok(parts) => parts,
        Err(e) => {
            return Err(Error::External(e));
        },
    };
    let (scheme, query, fragment, cannot_be_a_base) = parts;
    if let Err(e) = check_api_base(scheme.as_str(), query.is_some(), fragment.is_some()) {
        return Err(e);
    }
    if cannot_be_a_base {
        return Err(Error::Configuration(String::from_str("API base cannot contain path segments")));
    }
    let popped = match pop_empty_segment(api_base) {
        Some(u) => Ok(u),
        None => Err(Error::Configuration(String::from_str("API base cannot contain path segments"))),
    };
    let repos = append_segment(popped, "repos");
    let with_owner = append_segment(repos, owner);
    let with_repo = append_segment(with_owner, repo);
    proof {
        reveal_strlit("repos");
        reveal_strlit("releases");
    }
    append_segment(with_repo, "releases")
}



/// Where a GitHub request stands. The `String` fields hold the request path
/// reported in errors.
pub enum FetchState {
    /// Cancellation checked before the request is built.
    Starting(String),
    /// Cancellation checked before sending.
    BeforeSend(String),
    /// The request is being sent.
    Sending(String),
    /// Cancellation checked after the response headers arrived.
    AfterSend(String, std::result::Result<u16, HttpError>),
    /// The response body is being read.
    Reading(String),
    /// Cancellation checked after the body was read.
    AfterRead(String, std::result::Result<(), HttpError>),
    /// The body is being decoded.
    Decoding(String),
    /// Cancellation checked after decoding.
    AfterDecode(String, std::result::Result<(), JsonError>),
    /// The request has finished.
    Done,
}

/// What the last action of a request produced.
pub enum FetchEvent {
    TokenChecked(Result<()>),
    /// The response's status, or the transport failure.
    Sent(std::result::Result<u16, HttpError>),
    /// Whether the body was read.
    Read(std::result::Result<(), HttpError>),
    /// Whether the body decoded.
    Decoded(std::result::Result<(), JsonError>),
}

/// What a request was configured with.
pub struct FetchConfig {
    /// The bearer token to authenticate with, if any.
    pub bearer: Option<String>,
}

/// The GitHub JSON media type.
pub open spec fn github_json() -> Seq<char> {
    "application/vnd.github+json"@
}

/// The User-Agent: the library's package name and version.
pub open spec fn user_agent() -> Seq<char> {
    "selfupdate/0.1.1"@
}

/// The headers every request sets: GitHub's JSON `Accept` header and the
/// library's User-Agent.
pub open spec fn request_headers_spec() -> Seq<(Seq<char>, Seq<char>)> {
    seq![("accept"@, github_json()), ("user-agent"@, user_agent())]
}

/// Header names and values as the texts they hold.
pub open spec fn headers_view(v: Seq<(String, String)>) -> Seq<(Seq<char>, Seq<char>)> {
    v.map_values(|h: (String, String)| (h.0@, h.1@))
}

/// The headers every request sets (`request_headers_spec`).
pub fn request_headers() -> (r: Vec<(String, String)>)
    ensures
        headers_view(r@) == request_headers_spec(),
{
    let mut r: Vec<(String, String)> = Vec::new();
    r.push((String::from_str("accept"), String::from_str("application/vnd.github+json")));
    r.push((String::from_str("user-agent"), String::from_str("selfupdate/0.1.1")));
    assert(headers_view(r@) =~= request_headers_spec());
    r
}

/// What the caller does next in a request.
pub enum FetchAction {
    /// Check the cancellation token (`TokenChecked`).
    CheckToken,
    /// Build and send the request with these headers and, if given, this bearer
    /// token (`Sent`).
    Send { headers: Vec<(String, String)>, bearer: Option<String> },
    /// Read the response body (`Read`).
    ReadBody,
    /// Decode the body as JSON (`Decoded`).
    Decode,
    /// The request ends: `Ok` hands out the decoded value.
    Finish(Result<()>),
}

/// A request action as the values it carries; a rejected status shows as the
/// path and status it names, a decoding failure as its path and cause.
pub enum FetchActionView {
    CheckToken,
    Send(Seq<(Seq<char>, Seq<char>)>, Option<Seq<char>>),
    ReadBody,
    Decode,
    Rejected(Seq<char>, u16),
    Undecodable(Seq<char>, JsonError),
    Finish(Result<()>),
}

pub open spec fn fetch_finish_view(r: Result<()>) -> FetchActionView {
    match r {
        Err(Error::HttpStatus { path, status }) => FetchActionView::Rejected(path@, status),
        Err(Error::Decode { path, source }) => FetchActionView::Undecodable(path@, source),
        _ => FetchActionView::Finish(r),
    }
}

pub open spec fn fetch_action_view(a: FetchAction) -> FetchActionView {
    match a {
        FetchAction::CheckToken => FetchActionView::CheckToken,
        FetchAction::Send { headers, bearer } => FetchActionView::Send(
            headers_view(headers@),
            texts_of(bearer),
        ),
        FetchAction::ReadBody => FetchActionView::ReadBody,
        FetchAction::Decode => FetchActionView::Decode,
        FetchAction::Finish(r) => fetch_finish_view(r),
    }
}

/// Which event answers the action taken in each state.
pub open spec fn fetch_fits(s: FetchState, e: FetchEvent) -> bool {
    match s {
        FetchState::Starting(_) => e is TokenChecked,
        FetchState::BeforeSend(_) => e is TokenChecked,
        FetchState::Sending(_) => e is Sent,
        FetchState::AfterSend(_, _) => e is TokenChecked,
        FetchState::Reading(_) => e is Read,
        FetchState::AfterRead(_, _) => e is TokenChecked,
        FetchState::Decoding(_) => e is Decoded,
        FetchState::AfterDecode(_, _) => e is TokenChecked,
        FetchState::Done => false,
    }
}

/// One step of a request: cancellation is checked before building and sending
/// and after each network step, and wins over what that step produced; a
/// transport failure is an HTTP error, any status but 200 is rejected, and a
/// body that does not decode is a decoding error naming the path.
pub open spec fn fetch_next(c: FetchConfig, s: FetchState, e: FetchEvent) -> (FetchState, FetchActionView) {
    match s {
        FetchState::Starting(path) => match e {
            FetchEvent::TokenChecked(Err(err)) => (FetchState::Done, fetch_finish_view(Err(err))),
            FetchEvent::TokenChecked(Ok(())) => (FetchState::BeforeSend(path), FetchActionView::CheckToken),
            _ => (s, FetchActionView::CheckToken),
        },
        FetchState::BeforeSend(path) => match e {
            FetchEvent::TokenChecked(Err(err)) => (FetchState::Done, fetch_finish_view(Err(err))),
            FetchEvent::TokenChecked(Ok(())) => (
                FetchState::Sending(path),
                FetchActionView::Send(request_headers_spec(), texts_of(c.bearer)),
            ),
            _ => (s, FetchActionView::CheckToken),
        },
        FetchState::Sending(path) => match e {
            FetchEvent::Sent(sent) => (FetchState::AfterSend(path, sent), FetchActionView::CheckToken),
            _ => (s, FetchActionView::CheckToken),
        },
        FetchState::AfterSend(path, sent) => match e {
            FetchEvent::TokenChecked(Err(err)) => (FetchState::Done, fetch_finish_view(Err(err))),
            FetchEvent::TokenChecked(Ok(())) => match sent {
                Err(err) => (FetchState::Done, FetchActionView::Finish(Err(Error::Http(err)))),
                Ok(status) => if status != 200 {
                    (FetchState::Done, FetchActionView::Rejected(path@, status))
                } else {
                    (FetchState::Reading(path), FetchActionView::ReadBody)
                },
            },
            _ => (s, FetchActionView::CheckToken),
        },
        FetchState::Reading(path) => match e {
            FetchEvent::Read(read) => (FetchState::AfterRead(path, read), FetchActionView::CheckToken),
            _ => (s, FetchActionView::CheckToken),
        },
        FetchState::AfterRead(path, read) => match e {
            FetchEvent::TokenChecked(Err(err)) => (FetchState::Done, fetch_finish_view(Err(err))),
            FetchEvent::TokenChecked(Ok(())) => match read {
                Err(err) => (FetchState::Done, FetchActionView::Finish(Err(Error::Http(err)))),
                Ok(()) => (FetchState::Decoding(path), FetchActionView::Decode),
            },
            _ => (s, FetchActionView::CheckToken),
        },
        FetchState::Decoding(path) => match e {
            FetchEvent::Decoded(decoded) => (
                FetchState::AfterDecode(path, decoded),
                FetchActionView::CheckToken,
            ),
            _ => (s, FetchActionView::CheckToken),
        },
        FetchState::AfterDecode(path, decoded) => match e {
            FetchEvent::TokenChecked(Err(err)) => (FetchState::Done, fetch_finish_view(Err(err))),
            FetchEvent::TokenChecked(Ok(())) => match decoded {
                Err(err) => (FetchState::Done, FetchActionView::Undecodable(path@, err)),
                Ok(()) => (FetchState::Done, FetchActionView::Finish(Ok(()))),
            },
            _ => (s, FetchActionView::CheckToken),
        },
        FetchState::Done => (s, FetchActionView::CheckToken),
    }
}

/// The first step of a request to `path`: check for cancellation.
pub fn fetch_start(path: String) -> (r: (FetchState, FetchAction))
    ensures
        r.0 == FetchState::Starting(path),
        r.1 is CheckToken,
{
    (FetchState::Starting(path), FetchAction::CheckToken)
}

/// Whether `event` answers the action taken in `state`.
pub fn fetch_event_fits(state: &FetchState, event: &FetchEvent) -> (r: bool)
    ensures
        r == fetch_fits(*state, *event),
{
    match state {
        FetchState::Starting(_) => matches!(event, FetchEvent::TokenChecked(_)),
        FetchState::BeforeSend(_) => matches!(event, FetchEvent::TokenChecked(_)),
        FetchState::Sending(_) => matches!(event, FetchEvent::Sent(_)),
        FetchState::AfterSend(_, _) => matches!(event, FetchEvent::TokenChecked(_)),
        FetchState::Reading(_) => matches!(event, FetchEvent::Read(_)),
        FetchState::AfterRead(_, _) => matches!(event, FetchEvent::TokenChecked(_)),
        FetchState::Decoding(_) => matches!(event, FetchEvent::Decoded(_)),
        FetchState::AfterDecode(_, _) => matches!(event, FetchEvent::TokenChecked(_)),
        FetchState::Done => false,
    }
}

/// One step of a request: the next state and action.
pub fn fetch_step(config: &FetchConfig, state: FetchState, event: FetchEvent) -> (r: (FetchState, FetchAction))
    requires
        fetch_fits(state, event),
    ensures
        (r.0, fetch_action_view(r.1)) == fetch_next(*config, state, event),
{
    match state {
        FetchState::Starting(path) => match event {
            FetchEvent::TokenChecked(Err(err)) => (FetchState::Done, FetchAction::Finish(Err(err))),
            FetchEvent::TokenChecked(Ok(())) => (FetchState::BeforeSend(path), FetchAction::CheckToken),
            _ => (FetchState::Done, FetchAction::CheckToken),
        },
        FetchState::BeforeSend(path) => match event {
            FetchEvent::TokenChecked(Err(err)) => (FetchState::Done, FetchAction::Finish(Err(err))),
            FetchEvent::TokenChecked(Ok(())) => {
                let bearer = match &config.bearer {
                    Some(b) => Some(b.clone()),
                    None => None,
                };
                (FetchState::Sending(path), FetchAction::Send { headers: request_headers(), bearer })
            },
            _ => (FetchState::Done, FetchAction::CheckToken),
        },
        FetchState::Sending(path) => match event {
            FetchEvent::Sent(sent) => (FetchState::AfterSend(path, sent), FetchAction::CheckToken),
            _ => (FetchState::Done, FetchAction::CheckToken),
        },
        FetchState::AfterSend(path, sent) => match event {
            FetchEvent::TokenChecked(Err(err)) => (FetchState::Done, FetchAction::Finish(Err(err))),
            FetchEvent::TokenChecked(Ok(())) => match sent {
                Err(err) => (FetchState::Done, FetchAction::Finish(Err(Error::Http(err)))),
                Ok(status) => match check_status(path.as_str(), status) {
                    Err(err) => (FetchState::Done, FetchAction::Finish(Err(err))),
                    Ok(()) => (FetchState::Reading(path), FetchAction::ReadBody),
                },
            },
            _ => (FetchState::Done, FetchAction::CheckToken),
        },
        FetchState::Reading(path) => match event {
            FetchEvent::Read(read) => (FetchState::AfterRead(path, read), FetchAction::CheckToken),
            _ => (FetchState::Done, FetchAction::CheckToken),
        },
        FetchState::AfterRead(path, read) => match event {
            FetchEvent::TokenChecked(Err(err)) => (FetchState::Done, FetchAction::Finish(Err(err))),
            FetchEvent::TokenChecked(Ok(())) => match read {
                Err(err) => (FetchState::Done, FetchAction::Finish(Err(Error::Http(err)))),
                Ok(()) => (FetchState::Decoding(path), FetchAction::Decode),
            },
            _ => (FetchState::Done, FetchAction::CheckToken),
        },
        FetchState::Decoding(path) => match event {
            FetchEvent::Decoded(decoded) => (
                FetchState::AfterDecode(path, decoded),
                FetchAction::CheckToken,
            ),
            _ => (FetchState::Done, FetchAction::CheckToken),
        },
        FetchState::AfterDecode(path, decoded) => match event {
            FetchEvent::TokenChecked(Err(err)) => (FetchState::Done, FetchAction::Finish(Err(err))),
            FetchEvent::TokenChecked(Ok(())) => match decoded {
                Err(err) => (
                    FetchState::Done,
                    FetchAction::Finish(Err(Error::Decode { path, source: err })),
                ),
                Ok(()) => (FetchState::Done, FetchAction::Finish(Ok(()))),
            },
            _ => (FetchState::Done, FetchAction::CheckToken),
        },
        FetchState::Done => (FetchState::Done, FetchAction::CheckToken),
    }
}



// Laws of a request.

/// A request is sent only after a cancellation check that passed, always with
/// the JSON `Accept` header and the library's User-Agent, and with the
/// configured bearer token.
pub proof fn law_send_after_token_check(c: FetchConfig, s: FetchState, e: FetchEvent)
    requires
        fetch_fits(s, e),
    ensures
        fetch_next(c, s, e).1 is Send ==> s is BeforeSend && e matches FetchEvent::TokenChecked(Ok(_)),
        fetch_next(c, s, e).1 matches FetchActionView::Send(headers, bearer) ==> headers
            == request_headers_spec() && bearer == texts_of(c.bearer),
{
}

/// Only a response with status 200 has its body read, and only after the
/// cancellation check that follows the response passed.
pub proof fn law_body_read_only_for_ok_status(c: FetchConfig, s: FetchState, e: FetchEvent)
    requires
        fetch_fits(s, e),
    ensures
        fetch_next(c, s, e).1 is ReadBody ==> (s matches FetchState::AfterSend(_, sent) && sent
            == Ok::<u16, HttpError>(200u16) && e matches FetchEvent::TokenChecked(Ok(_))),
{
}

/// A body is decoded only after it was read and the following cancellation
/// check passed, and the request is sent from the one state reached from the
/// start: each network step happens once, in order.
pub proof fn law_fetch_steps_in_order(c: FetchConfig, s: FetchState, e: FetchEvent)
    requires
        fetch_fits(s, e),
    ensures
        fetch_next(c, s, e).1 is Decode ==> (s matches FetchState::AfterRead(_, read) && read is Ok
            && e matches FetchEvent::TokenChecked(Ok(_))),
        fetch_next(c, s, e).0 is BeforeSend ==> s is Starting,
        fetch_next(c, s, e).0 is Reading ==> s is AfterSend,
        fetch_next(c, s, e).0 is Decoding ==> s is AfterRead,
{
}

/// A request succeeds only when its body decoded and the last cancellation
/// check passed.
pub proof fn law_fetch_success_needs_decoded_body(c: FetchConfig, s: FetchState, e: FetchEvent)
    requires
        fetch_fits(s, e),
    ensures
        fetch_next(c, s, e).1 == FetchActionView::Finish(Ok(())) ==> (s matches FetchState::AfterDecode(_, decoded)
            && decoded is Ok && e matches FetchEvent::TokenChecked(Ok(_))),
{
}

/// Cancellation seen at any check ends the request with that error, whatever
/// the network step before it produced.
pub proof fn law_fetch_cancellation_wins(c: FetchConfig, s: FetchState, err: Error)
    requires
        fetch_fits(s, FetchEvent::TokenChecked(Err(err))),
    ensures
        fetch_next(c, s, FetchEvent::TokenChecked(Err(err))) == (FetchState::Done, fetch_finish_view(
            Err(err),
        )),
{
}

} // verus!
