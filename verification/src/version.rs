//! Version normalization and precedence.
use crate::semver::{
    all_canonical_numbers, all_digits, canonical_number, char_elem, dev_version, identifier_elem, identifier_order,
    is_digit, is_ident_char, lexicographic, normalized, number_elem, number_order, pad_core,
    parse_version, parsed_order, text_order, update_order, valid_identifier,
    version_order, Order, ParsedVersion,
};
use crate::text::{
    chars_of, find_in_range, lemma_find_char_found, split_on, split_range, trim_str,
    views,
};
use std::cmp::Ordering;
use vstd::prelude::*;
use vstd::string::*;

verus! {

/// Trim whitespace, add `v`, and map empty strings and `dev` to `v0.0.0-dev`.
pub fn normalize_version(version: &str) -> (r: String)
    ensures
        r@ == normalized(version@),
{
    let t = trim_str(version);
    let tv = chars_of(t);
    if tv.len() == 0 || (tv.len() == 3 && tv[0] == 'd' && tv[1] == 'e' && tv[2] == 'v') {
        if tv.len() == 3 {
            assert(tv@ =~= seq!['d', 'e', 'v']);
        }
        let r = String::from_str("v0.0.0-dev");
        proof {
            reveal_strlit("v0.0.0-dev");
            assert(r@ =~= dev_version());
        }
        r
    } else if tv[0] == 'v' {
        proof {
            if t@ == seq!['d', 'e', 'v'] {
                assert(tv@[0] == 'd');
            }
        }
        String::from_str(t)
    } else {
        proof {
            if t@ == seq!['d', 'e', 'v'] {
                assert(tv@.len() == 3 && tv@[0] == 'd' && tv@[1] == 'e' && tv@[2] == 'v');
            }
        }
        let r = String::from_str("v");
        proof {
            reveal_strlit("v");
        }
        let r = r.concat(t);
        assert(r@ =~= seq!['v'] + t@);
        r
    }
}

/// The parts of a valid version that precedence reads.
struct Version {
    core: Vec<Vec<char>>,
    pre: Option<Vec<Vec<char>>>,
}

impl Version {
    spec fn parsed(&self) -> ParsedVersion {
        ParsedVersion {
            core: views(self.core@),
            pre: match &self.pre {
                Some(p) => Some(views(p@)),
                None => None,
            },
        }
    }
}

fn is_digit_char(c: char) -> (r: bool)
    ensures
        r == is_digit(c),
{
    '0' <= c && c <= '9'
}

fn is_ident_char_exec(c: char) -> (r: bool)
    ensures
        r == is_ident_char(c),
{
    ('0' <= c && c <= '9') || ('a' <= c && c <= 'z') || ('A' <= c && c <= 'Z') || c == '-'
}

fn is_all_digits(p: &Vec<char>) -> (r: bool)
    ensures
        r == all_digits(p@),
{
    if p.len() == 0 {
        return false;
    }
    let mut i: usize = 0;
    while i < p.len()
        invariant
            i <= p.len(),
            forall|j: int| 0 <= j < i ==> is_digit(#[trigger] p@[j]),
        decreases p.len() - i,
    {
        if !is_digit_char(p[i]) {
            return false;
        }
        i = i + 1;
    }
    true
}

fn is_canonical_number(p: &Vec<char>) -> (r: bool)
    ensures
        r == canonical_number(p@),
{
    is_all_digits(p) && (p.len() == 1 || p[0] != '0')
}

fn is_valid_identifier(p: &Vec<char>, prerelease: bool) -> (r: bool)
    ensures
        r == valid_identifier(p@, prerelease),
{
    if p.len() == 0 {
        return false;
    }
    let mut i: usize = 0;
    while i < p.len()
        invariant
            i <= p.len(),
            forall|j: int| 0 <= j < i ==> is_ident_char(#[trigger] p@[j]),
        decreases p.len() - i,
    {
        if !is_ident_char_exec(p[i]) {
            return false;
        }
        i = i + 1;
    }
    !prerelease || !is_all_digits(p) || is_canonical_number(p)
}

fn are_valid_identifiers(ids: &Vec<Vec<char>>, prerelease: bool) -> (r: bool)
    ensures
        r == forall|k: int|
            0 <= k < views(ids@).len() ==> valid_identifier(#[trigger] views(ids@)[k], prerelease),
{
    let mut k: usize = 0;
    while k < ids.len()
        invariant
            k <= ids.len(),
            forall|j: int| 0 <= j < k ==> valid_identifier(#[trigger] views(ids@)[j], prerelease),
        decreases ids.len() - k,
    {
        if !is_valid_identifier(&ids[k], prerelease) {
            assert(views(ids@)[k as int] == ids@[k as int]@);
            return false;
        }
        k = k + 1;
    }
    true
}

fn all_canonical(parts: &Vec<Vec<char>>) -> (r: bool)
    ensures
        r == all_canonical_numbers(views(parts@)),
{
    let mut k: usize = 0;
    while k < parts.len()
        invariant
            k <= parts.len(),
            forall|j: int| 0 <= j < k ==> canonical_number(#[trigger] views(parts@)[j]),
        decreases parts.len() - k,
    {
        if !is_canonical_number(&parts[k]) {
            assert(views(parts@)[k as int] == parts@[k as int]@);
            return false;
        }
        k = k + 1;
    }
    true
}

/// Parse a version held as characters; `None` when the syntax is invalid.
fn parse_chars(v: &Vec<char>) -> (r: Option<Version>)
    ensures
        match r {
            Some(x) => parse_version(v@) == Some(x.parsed()),
            None => parse_version(v@) is None,
        },
{
    if v.len() == 0 || v[0] != 'v' {
        return None;
    }
    let n = v.len();
    let ghost s = v@;
    let ghost body = s.drop_first();
    assert(body =~= s.subrange(1, n as int));
    let plus = find_in_range(v, 1, n, '+');
    proof {
        lemma_find_char_found(body, '+');
    }
    let rest_end: usize = match plus {
        Some(i) => 1 + i,
        None => n,
    };
    let ghost rest = match plus {
        Some(i) => body.take(i as int),
        None => body,
    };
    assert(rest =~= s.subrange(1, rest_end as int));
    if let Some(i) = plus {
        let build = split_range(v, 1 + i + 1, n, '.');
        assert(body.skip(i + 1) =~= s.subrange(1 + i + 1, n as int));
        if !are_valid_identifiers(&build, false) {
            return None;
        }
    }
    let dash = find_in_range(v, 1, rest_end, '-');
    proof {
        lemma_find_char_found(rest, '-');
    }
    let core_end: usize = match dash {
        Some(j) => 1 + j,
        None => rest_end,
    };
    let ghost core = match dash {
        Some(j) => rest.take(j as int),
        None => rest,
    };
    assert(core =~= s.subrange(1, core_end as int));
    let mut pre: Option<Vec<Vec<char>>> = None;
    if let Some(j) = dash {
        let ids = split_range(v, 1 + j + 1, rest_end, '.');
        assert(rest.skip(j + 1) =~= s.subrange(1 + j + 1, rest_end as int));
        if !are_valid_identifiers(&ids, true) {
            return None;
        }
        pre = Some(ids);
    }
    let parts = split_range(v, 1, core_end, '.');
    if parts.len() > 3 {
        return None;
    }
    if !all_canonical(&parts) {
        assert(split_on(core, '.') == views(parts@));
        return None;
    }
    if parts.len() < 3 && (dash.is_some() || plus.is_some()) {
        return None;
    }
    let ghost part_views = views(parts@);
    let mut core_parts = parts;
    while core_parts.len() < 3
        invariant
            part_views.len() <= core_parts.len() <= 3,
            forall|j: int|
                0 <= j < core_parts.len() ==> #[trigger] core_parts@[j]@ == (if j
                    < part_views.len() {
                    part_views[j]
                } else {
                    seq!['0']
                }),
        decreases 3 - core_parts.len(),
    {
        let zero = vec!['0'];
        assert(zero@ =~= seq!['0']);
        core_parts.push(zero);
    }
    let r = Version { core: core_parts, pre };
    assert(views(r.core@) =~= pad_core(part_views));
    Some(r)
}

/// Compare two character sequences as text.
fn text_order_exec(a: &Vec<char>, b: &Vec<char>) -> (r: Order)
    ensures
        r == text_order(a@, b@),
{
    let mut i: usize = 0;
    assert(a@.skip(0) =~= a@);
    assert(b@.skip(0) =~= b@);
    while i < a.len() && i < b.len()
        invariant
            i <= a.len(),
            i <= b.len(),
            text_order(a@, b@) == lexicographic(a@.skip(i as int), b@.skip(i as int), char_elem()),
        decreases a.len() - i,
    {
        if a[i] < b[i] {
            return Order::Less;
        }
        if a[i] > b[i] {
            return Order::Greater;
        }
        assert(a@.skip(i as int).drop_first() =~= a@.skip(i + 1));
        assert(b@.skip(i as int).drop_first() =~= b@.skip(i + 1));
        i = i + 1;
    }
    if i == a.len() {
        if i == b.len() {
            Order::Equal
        } else {
            Order::Less
        }
    } else {
        Order::Greater
    }
}

fn number_order_exec(a: &Vec<char>, b: &Vec<char>) -> (r: Order)
    ensures
        r == number_order(a@, b@),
{
    if a.len() < b.len() {
        Order::Less
    } else if a.len() > b.len() {
        Order::Greater
    } else {
        text_order_exec(a, b)
    }
}

fn identifier_order_exec(a: &Vec<char>, b: &Vec<char>) -> (r: Order)
    ensures
        r == identifier_order(a@, b@),
{
    let da = is_all_digits(a);
    let db = is_all_digits(b);
    if da && db {
        number_order_exec(a, b)
    } else if da {
        Order::Less
    } else if db {
        Order::Greater
    } else {
        text_order_exec(a, b)
    }
}

/// Compare two lists of pieces lexicographically, as numbers or as identifiers.
fn pieces_order(a: &Vec<Vec<char>>, b: &Vec<Vec<char>>, numeric: bool) -> (r: Order)
    ensures
        r == lexicographic(
            views(a@),
            views(b@),
            if numeric {
                number_elem()
            } else {
                identifier_elem()
            },
        ),
{
    let ghost elem = if numeric {
        number_elem()
    } else {
        identifier_elem()
    };
    let ghost va = views(a@);
    let ghost vb = views(b@);
    let mut i: usize = 0;
    assert(va.skip(0) =~= va);
    assert(vb.skip(0) =~= vb);
    while i < a.len() && i < b.len()
        invariant
            i <= a.len(),
            i <= b.len(),
            va == views(a@),
            vb == views(b@),
            elem == (if numeric {
                number_elem()
            } else {
                identifier_elem()
            }),
            lexicographic(va, vb, elem) == lexicographic(va.skip(i as int), vb.skip(i as int), elem),
        decreases a.len() - i,
    {
        let o = if numeric {
            number_order_exec(&a[i], &b[i])
        } else {
            identifier_order_exec(&a[i], &b[i])
        };
        assert(va.skip(i as int)[0] == a@[i as int]@);
        assert(vb.skip(i as int)[0] == b@[i as int]@);
        if o != Order::Equal {
            return o;
        }
        assert(va.skip(i as int).drop_first() =~= va.skip(i + 1));
        assert(vb.skip(i as int).drop_first() =~= vb.skip(i + 1));
        i = i + 1;
    }
    if i == a.len() {
        if i == b.len() {
            Order::Equal
        } else {
            Order::Less
        }
    } else {
        Order::Greater
    }
}

fn parsed_order_exec(a: &Version, b: &Version) -> (r: Order)
    ensures
        r == parsed_order(a.parsed(), b.parsed()),
{
    let c = pieces_order(&a.core, &b.core, true);
    if c != Order::Equal {
        return c;
    }
    match (&a.pre, &b.pre) {
        (None, None) => Order::Equal,
        (None, Some(_)) => Order::Greater,
        (Some(_), None) => Order::Less,
        (Some(x), Some(y)) => pieces_order(x, y, false),
    }
}

/// Precedence of two version strings taken as they are, without normalizing.
pub fn compare_raw(a: &str, b: &str) -> (r: Order)
    ensures
        r == version_order(a@, b@),
{
    let va = chars_of(a);
    let vb = chars_of(b);
    match (parse_chars(&va), parse_chars(&vb)) {
        (Some(x), Some(y)) => parsed_order_exec(&x, &y),
        (Some(_), None) => Order::Greater,
        (None, Some(_)) => Order::Less,
        (None, None) => Order::Equal,
    }
}

/// `std`'s ordering for an outcome.
pub open spec fn ordering_of(o: Order) -> Ordering {
    match o {
        Order::Less => Ordering::Less,
        Order::Equal => Ordering::Equal,
        Order::Greater => Ordering::Greater,
    }
}

fn to_ordering(o: Order) -> (r: Ordering)
    ensures
        r == ordering_of(o),
{
    match o {
        Order::Less => Ordering::Less,
        Order::Equal => Ordering::Equal,
        Order::Greater => Ordering::Greater,
    }
}

/// Compare normalized versions using Go's `x/mod/semver` ordering.
///
/// `Greater` means **latest is newer**, so an update is available. Invalid
/// versions sort below valid versions and equal each other. Build metadata
/// does not affect precedence. `v1` and `v1.2` are valid shortened versions.
pub fn compare(current: &str, latest: &str) -> (r: Ordering)
    ensures
        r == ordering_of(update_order(current@, latest@)),
{
    let l = normalize_version(latest);
    let c = normalize_version(current);
    to_ordering(compare_raw(l.as_str(), c.as_str()))
}

} // verus!
