//! Installation of a selected release.
use crate::cancel::CancellationToken;
use crate::error::{Error, Result};
use vstd::prelude::*;
use vstd::string::*;

verus! {

/// Replaces the binary with the specified release. Implementations must check
/// cancellation before side effects and may cooperate during installation.
pub trait Installer {
    /// Install the release tag as published, not normalized.
    fn install(&mut self, token: &CancellationToken, tag: &str) -> Result<()>;
}

impl<T: Installer + ?Sized> Installer for &mut T {
    fn install(&mut self, token: &CancellationToken, tag: &str) -> (r: Result<()>)
        ensures
            exists|m: &mut T| #[trigger] call_ensures(T::install, (m, token, tag), r),
    {
        (**self).install(token, tag)
    }
}

impl<T: Installer + ?Sized> Installer for Box<T> {
    fn install(&mut self, token: &CancellationToken, tag: &str) -> (r: Result<()>)
        ensures
            exists|m: &mut T| #[trigger] call_ensures(T::install, (m, token, tag), r),
    {
        let inner: &mut T = &mut **self;
        T::install(inner, token, tag)
    }
}

pub open spec fn is_ascii_alphanumeric(c: char) -> bool {
    ('0' <= c && c <= '9') || ('a' <= c && c <= 'z') || ('A' <= c && c <= 'Z')
}

/// A tag the script installer passes on: nonempty, starting with an ASCII
/// letter or digit, and made only of ASCII letters, digits, `.`, `+` and `-`.
pub open spec fn safe_tag(tag: Seq<char>) -> bool {
    &&& tag.len() > 0
    &&& is_ascii_alphanumeric(tag[0])
    &&& forall|i: int|
        0 <= i < tag.len() ==> is_ascii_alphanumeric(#[trigger] tag[i]) || tag[i] == '.'
            || tag[i] == '+' || tag[i] == '-'
}

fn is_ascii_alphanumeric_char(c: char) -> (r: bool)
    ensures
        r == is_ascii_alphanumeric(c),
{
    ('0' <= c && c <= '9') || ('a' <= c && c <= 'z') || ('A' <= c && c <= 'Z')
}

/// The tags the script installer accepts are exactly the nonempty ones that
/// start with an ASCII letter or digit and consist only of ASCII letters,
/// digits, `.`, `+` and `-`: a plain numeric tag such as `1.2.3` is accepted,
/// and a tag with a space, `/`, `;` or any other character is refused.
pub proof fn law_safe_tag_characters(tag: Seq<char>)
    ensures
        safe_tag(tag) <==> {
            &&& tag.len() > 0
            &&& ('0' <= tag[0] <= '9' || 'a' <= tag[0] <= 'z' || 'A' <= tag[0] <= 'Z')
            &&& forall|i: int|
                0 <= i < tag.len() ==> ('0' <= #[trigger] tag[i] <= '9' || 'a' <= tag[i] <= 'z'
                    || 'A' <= tag[i] <= 'Z' || tag[i] == '.' || tag[i] == '+' || tag[i] == '-')
        },
{
}

/// Whether the script installer accepts `tag`.
pub fn is_safe_tag(tag: &str) -> (r: bool)
    ensures
        r == safe_tag(tag@),
{
    let v = crate::text::chars_of(tag);
    if v.len() == 0 || !is_ascii_alphanumeric_char(v[0]) {
        return false;
    }
    let mut i: usize = 0;
    while i < v.len()
        invariant
            i <= v.len(),
            v@ == tag@,
            forall|j: int|
                0 <= j < i ==> is_ascii_alphanumeric(#[trigger] v@[j]) || v@[j] == '.' || v@[j]
                    == '+' || v@[j] == '-',
        decreases v.len() - i,
    {
        let c = v[i];
        if !(is_ascii_alphanumeric_char(c) || c == '.' || c == '+' || c == '-') {
            return false;
        }
        i = i + 1;
    }
    true
}

/// The checks the script installer makes before running anything: a
/// configured URL, then a safe tag.
pub fn check_script_request(url: &str, tag: &str) -> (r: Result<()>)
    ensures
        url@.len() == 0 ==> (r matches Err(Error::Configuration(m))
            && m@ == "ScriptInstaller URL is empty"@),
        url@.len() > 0 && !safe_tag(tag@) ==> (r matches Err(Error::UnsafeTag(t)) && t@ == tag@),
        url@.len() > 0 && safe_tag(tag@) ==> r is Ok,
{
    if url.is_empty() {
        return Err(Error::Configuration(String::from_str("ScriptInstaller URL is empty")));
    }
    if !is_safe_tag(tag) {
        return Err(Error::UnsafeTag(tag.to_owned()));
    }
    Ok(())
}

} // verus!
