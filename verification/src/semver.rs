//! The precedence of release versions, after Go's `x/mod/semver`, stated over
//! character sequences, with the laws that make it a total preorder.
use crate::text::{find_char, is_space, lemma_find_char, split_on, trim, trim_end, trim_start};
use vstd::prelude::*;

verus! {

/// The outcome of comparing two values.
#[derive(Clone, Copy, Debug, PartialEq, Eq, Structural)]
pub enum Order {
    Less,
    Equal,
    Greater,
}

impl Order {
    /// The outcome with the two sides swapped.
    pub open spec fn flip(self) -> Order {
        match self {
            Order::Less => Order::Greater,
            Order::Equal => Order::Equal,
            Order::Greater => Order::Less,
        }
    }
}

/// An ordering function is antisymmetric: swapping its sides flips it.
pub open spec fn antisymmetric<T>(f: spec_fn(T, T) -> Order) -> bool {
    forall|x: T, y: T| #[trigger] f(x, y) == f(y, x).flip()
}

/// An ordering function answers `Equal` exactly on equal values.
pub open spec fn equal_iff_same<T>(f: spec_fn(T, T) -> Order) -> bool {
    forall|x: T, y: T| #[trigger] f(x, y) == Order::Equal <==> x == y
}

/// An ordering function's `Less` is transitive.
pub open spec fn transitive<T>(f: spec_fn(T, T) -> Order) -> bool {
    forall|x: T, y: T, z: T|
        #[trigger] f(x, y) == Order::Less && #[trigger] f(y, z) == Order::Less ==> f(x, z)
            == Order::Less
}

/// An ordering function is a total order on its values.
pub open spec fn total_order<T>(f: spec_fn(T, T) -> Order) -> bool {
    antisymmetric(f) && equal_iff_same(f) && transitive(f)
}

/// Lexicographic comparison of two sequences under an element order; a proper
/// prefix comes first.
pub open spec fn lexicographic<T>(a: Seq<T>, b: Seq<T>, elem: spec_fn(T, T) -> Order) -> Order
    decreases a.len(),
{
    if a.len() == 0 {
        if b.len() == 0 {
            Order::Equal
        } else {
            Order::Less
        }
    } else if b.len() == 0 {
        Order::Greater
    } else if elem(a[0], b[0]) != Order::Equal {
        elem(a[0], b[0])
    } else {
        lexicographic(a.drop_first(), b.drop_first(), elem)
    }
}

/// Characters compare by code point, which for UTF-8 text is also byte order.
pub open spec fn char_order(a: char, b: char) -> Order {
    if a < b {
        Order::Less
    } else if a > b {
        Order::Greater
    } else {
        Order::Equal
    }
}

/// String comparison, as `str`'s `Ord` gives it.
pub open spec fn text_order(a: Seq<char>, b: Seq<char>) -> Order {
    lexicographic(a, b, char_elem())
}

/// `char_order` as a function value.
pub open spec fn char_elem() -> spec_fn(char, char) -> Order {
    |x: char, y: char| char_order(x, y)
}

/// `number_order` as a function value.
pub open spec fn number_elem() -> spec_fn(Seq<char>, Seq<char>) -> Order {
    |p: Seq<char>, q: Seq<char>| number_order(p, q)
}

/// `identifier_order` as a function value.
pub open spec fn identifier_elem() -> spec_fn(Seq<char>, Seq<char>) -> Order {
    |p: Seq<char>, q: Seq<char>| identifier_order(p, q)
}

pub open spec fn is_digit(c: char) -> bool {
    '0' <= c && c <= '9'
}

/// ASCII letters, digits and `-`: the characters of a version identifier.
pub open spec fn is_ident_char(c: char) -> bool {
    ||| ('0' <= c && c <= '9')
    ||| ('a' <= c && c <= 'z')
    ||| ('A' <= c && c <= 'Z')
    ||| c == '-'
}

/// A nonempty run of ASCII digits.
pub open spec fn all_digits(s: Seq<char>) -> bool {
    s.len() > 0 && forall|i: int| 0 <= i < s.len() ==> is_digit(#[trigger] s[i])
}

/// A decimal number without a leading zero.
pub open spec fn canonical_number(s: Seq<char>) -> bool {
    all_digits(s) && (s.len() == 1 || s[0] != '0')
}

/// Decimal numbers of any size compare by length, then digit by digit.
pub open spec fn number_order(a: Seq<char>, b: Seq<char>) -> Order {
    if a.len() < b.len() {
        Order::Less
    } else if a.len() > b.len() {
        Order::Greater
    } else {
        text_order(a, b)
    }
}

/// One prerelease identifier: numeric ones compare as numbers and come before
/// alphanumeric ones, which compare as text.
pub open spec fn identifier_order(a: Seq<char>, b: Seq<char>) -> Order {
    if all_digits(a) && all_digits(b) {
        number_order(a, b)
    } else if all_digits(a) {
        Order::Less
    } else if all_digits(b) {
        Order::Greater
    } else {
        text_order(a, b)
    }
}

/// A nonempty identifier of allowed characters; in a prerelease, a numeric
/// identifier has no leading zero.
pub open spec fn valid_identifier(id: Seq<char>, prerelease: bool) -> bool {
    &&& id.len() > 0
    &&& forall|i: int| 0 <= i < id.len() ==> is_ident_char(#[trigger] id[i])
    &&& (!prerelease || !all_digits(id) || canonical_number(id))
}

/// A dot-separated list of valid identifiers.
pub open spec fn valid_identifiers(s: Seq<char>, prerelease: bool) -> bool {
    forall|k: int|
        0 <= k < split_on(s, '.').len() ==> valid_identifier(
            #[trigger] split_on(s, '.')[k],
            prerelease,
        )
}

/// Every part is a decimal number without a leading zero.
pub open spec fn all_canonical_numbers(parts: Seq<Seq<char>>) -> bool {
    forall|k: int| 0 <= k < parts.len() ==> canonical_number(#[trigger] parts[k])
}

/// What precedence reads of a valid version: major, minor and patch (absent
/// ones read as `0`), and the prerelease identifiers if there are any.
pub struct ParsedVersion {
    pub core: Seq<Seq<char>>,
    pub pre: Option<Seq<Seq<char>>>,
}

/// The version core padded to three numbers.
pub open spec fn pad_core(parts: Seq<Seq<char>>) -> Seq<Seq<char>> {
    Seq::new(3, |k: int| if k < parts.len() { parts[k] } else { seq!['0'] })
}

/// Go semver syntax: `v`, one to three dot-separated numbers, an optional
/// `-prerelease` and an optional `+build`; the shortened forms `v1` and `v1.2`
/// admit neither. `None` for anything else.
pub open spec fn parse_version(s: Seq<char>) -> Option<ParsedVersion> {
    if s.len() == 0 || s[0] != 'v' {
        None
    } else {
        let body = s.drop_first();
        let plus = find_char(body, '+');
        let rest = match plus {
            Some(i) => body.take(i),
            None => body,
        };
        let build_ok = match plus {
            Some(i) => valid_identifiers(body.skip(i + 1), false),
            None => true,
        };
        let dash = find_char(rest, '-');
        let core = match dash {
            Some(j) => rest.take(j),
            None => rest,
        };
        let pre = match dash {
            Some(j) => Some(rest.skip(j + 1)),
            None => None,
        };
        let parts = split_on(core, '.');
        if !build_ok {
            None
        } else if pre matches Some(p) && !valid_identifiers(p, true) {
            None
        } else if parts.len() > 3 || !all_canonical_numbers(parts) {
            None
        } else if parts.len() < 3 && (pre is Some || plus is Some) {
            None
        } else {
            Some(
                ParsedVersion {
                    core: pad_core(parts),
                    pre: match pre {
                        Some(p) => Some(split_on(p, '.')),
                        None => None,
                    },
                },
            )
        }
    }
}

/// A release without prerelease identifiers follows every prerelease of the
/// same core.
pub open spec fn prerelease_order(a: Option<Seq<Seq<char>>>, b: Option<Seq<Seq<char>>>) -> Order {
    match (a, b) {
        (None, None) => Order::Equal,
        (None, Some(_)) => Order::Greater,
        (Some(_), None) => Order::Less,
        (Some(x), Some(y)) => lexicographic(x, y, identifier_elem()),
    }
}

/// Precedence of two parsed versions: the cores number by number, then the
/// prerelease.
pub open spec fn parsed_order(a: ParsedVersion, b: ParsedVersion) -> Order {
    let c = lexicographic(a.core, b.core, number_elem());
    if c != Order::Equal {
        c
    } else {
        prerelease_order(a.pre, b.pre)
    }
}

/// Precedence of two version strings: invalid ones equal each other and come
/// before every valid one; build metadata plays no part.
pub open spec fn version_order(a: Seq<char>, b: Seq<char>) -> Order {
    match (parse_version(a), parse_version(b)) {
        (Some(x), Some(y)) => parsed_order(x, y),
        (Some(_), None) => Order::Greater,
        (None, Some(_)) => Order::Less,
        (None, None) => Order::Equal,
    }
}

/// `v0.0.0-dev`, what an empty or `dev` version normalizes to.
pub open spec fn dev_version() -> Seq<char> {
    seq!['v', '0', '.', '0', '.', '0', '-', 'd', 'e', 'v']
}

/// A version trimmed of whitespace and given a leading `v`; empty and `dev`
/// become `v0.0.0-dev`.
pub open spec fn normalized(s: Seq<char>) -> Seq<char> {
    let t = trim(s);
    if t.len() == 0 || t == seq!['d', 'e', 'v'] {
        dev_version()
    } else if t[0] == 'v' {
        t
    } else {
        seq!['v'] + t
    }
}

/// How `latest` stands against `current` after normalizing both: `Greater`
/// means an update is available.
pub open spec fn update_order(current: Seq<char>, latest: Seq<char>) -> Order {
    version_order(normalized(latest), normalized(current))
}


// Lemmas: each order above is total.

pub proof fn lemma_lex_flip<T>(a: Seq<T>, b: Seq<T>, elem: spec_fn(T, T) -> Order)
    requires
        antisymmetric(elem),
    ensures
        lexicographic(a, b, elem) == lexicographic(b, a, elem).flip(),
    decreases a.len(),
{
    if a.len() > 0 && b.len() > 0 {
        assert(elem(a[0], b[0]) == elem(b[0], a[0]).flip());
        lemma_lex_flip(a.drop_first(), b.drop_first(), elem);
    }
}

pub proof fn lemma_lex_equal<T>(a: Seq<T>, b: Seq<T>, elem: spec_fn(T, T) -> Order)
    requires
        equal_iff_same(elem),
    ensures
        lexicographic(a, b, elem) == Order::Equal <==> a == b,
    decreases a.len(),
{
    if a.len() > 0 && b.len() > 0 {
        assert(elem(a[0], b[0]) == Order::Equal <==> a[0] == b[0]);
        lemma_lex_equal(a.drop_first(), b.drop_first(), elem);
        if a[0] == b[0] && a.drop_first() == b.drop_first() {
            assert(a =~= b) by {
                assert forall|i: int| 0 <= i < a.len() implies a[i] == b[i] by {
                    if i > 0 {
                        assert(a[i] == a.drop_first()[i - 1]);
                        assert(b[i] == b.drop_first()[i - 1]);
                    }
                }
            }
        }
        if a == b {
            assert(a.drop_first() =~= b.drop_first());
        }
    } else if a.len() == 0 && b.len() == 0 {
        assert(a =~= b);
    }
}

pub proof fn lemma_lex_trans<T>(a: Seq<T>, b: Seq<T>, c: Seq<T>, elem: spec_fn(T, T) -> Order)
    requires
        total_order(elem),
        lexicographic(a, b, elem) == Order::Less,
        lexicographic(b, c, elem) == Order::Less,
    ensures
        lexicographic(a, c, elem) == Order::Less,
    decreases a.len(),
{
    if a.len() > 0 {
        let x = a[0];
        let y = b[0];
        let z = c[0];
        assert(elem(x, y) == Order::Equal <==> x == y);
        assert(elem(y, z) == Order::Equal <==> y == z);
        if elem(x, y) == Order::Equal {
            if elem(y, z) == Order::Equal {
                lemma_lex_trans(a.drop_first(), b.drop_first(), c.drop_first(), elem);
            }
        } else {
            if elem(y, z) != Order::Equal {
                assert(elem(x, y) == Order::Less && elem(y, z) == Order::Less ==> elem(x, z)
                    == Order::Less);
            }
        }
    }
}

/// Lexicographic comparison under a total element order is a total order.
pub proof fn lemma_lex_total<T>(elem: spec_fn(T, T) -> Order)
    requires
        total_order(elem),
    ensures
        total_order(|a: Seq<T>, b: Seq<T>| lexicographic(a, b, elem)),
{
    let f = |a: Seq<T>, b: Seq<T>| lexicographic(a, b, elem);
    assert forall|a: Seq<T>, b: Seq<T>| #[trigger] f(a, b) == f(b, a).flip() by {
        lemma_lex_flip(a, b, elem);
    }
    assert forall|a: Seq<T>, b: Seq<T>| #[trigger] f(a, b) == Order::Equal <==> a == b by {
        lemma_lex_equal(a, b, elem);
    }
    assert forall|a: Seq<T>, b: Seq<T>, c: Seq<T>|
        #[trigger] f(a, b) == Order::Less && #[trigger] f(b, c) == Order::Less implies f(a, c)
        == Order::Less by {
        lemma_lex_trans(a, b, c, elem);
    }
}

pub proof fn lemma_char_total()
    ensures
        total_order(char_elem()),
{
}

pub proof fn lemma_text_total()
    ensures
        total_order(|a: Seq<char>, b: Seq<char>| lexicographic(a, b, char_elem())),
{
    lemma_char_total();
    lemma_lex_total(char_elem());
}

pub proof fn lemma_number_total()
    ensures
        total_order(number_elem()),
{
    lemma_text_total();
    let t = |a: Seq<char>, b: Seq<char>| lexicographic(a, b, char_elem());
    assert forall|a: Seq<char>, b: Seq<char>|
        #[trigger] number_order(a, b) == number_order(b, a).flip() by {
        assert(t(a, b) == t(b, a).flip());
    }
    assert forall|a: Seq<char>, b: Seq<char>|
        #[trigger] number_order(a, b) == Order::Equal <==> a == b by {
        assert(t(a, b) == Order::Equal <==> a == b);
    }
    assert forall|a: Seq<char>, b: Seq<char>, c: Seq<char>|
        #[trigger] number_order(a, b) == Order::Less && #[trigger] number_order(b, c)
            == Order::Less implies number_order(a, c) == Order::Less by {
        if a.len() == b.len() && b.len() == c.len() {
            assert(t(a, b) == Order::Less && t(b, c) == Order::Less ==> t(a, c) == Order::Less);
        }
    }
}

pub proof fn lemma_identifier_total()
    ensures
        total_order(identifier_elem()),
{
    lemma_text_total();
    lemma_number_total();
    let t = |a: Seq<char>, b: Seq<char>| lexicographic(a, b, char_elem());
    let n = number_elem();
    assert forall|a: Seq<char>, b: Seq<char>|
        #[trigger] identifier_order(a, b) == identifier_order(b, a).flip() by {
        assert(t(a, b) == t(b, a).flip());
        assert(n(a, b) == n(b, a).flip());
    }
    assert forall|a: Seq<char>, b: Seq<char>|
        #[trigger] identifier_order(a, b) == Order::Equal <==> a == b by {
        assert(t(a, b) == Order::Equal <==> a == b);
        assert(n(a, b) == Order::Equal <==> a == b);
    }
    assert forall|a: Seq<char>, b: Seq<char>, c: Seq<char>|
        #[trigger] identifier_order(a, b) == Order::Less && #[trigger] identifier_order(b, c)
            == Order::Less implies identifier_order(a, c) == Order::Less by {
        assert(t(a, b) == Order::Less && t(b, c) == Order::Less ==> t(a, c) == Order::Less);
        assert(n(a, b) == Order::Less && n(b, c) == Order::Less ==> n(a, c) == Order::Less);
    }
}

pub proof fn lemma_parsed_total()
    ensures
        total_order(|a: ParsedVersion, b: ParsedVersion| parsed_order(a, b)),
{
    lemma_number_total();
    lemma_identifier_total();
    lemma_lex_total(number_elem());
    lemma_lex_total(identifier_elem());
    let nc = |a: Seq<Seq<char>>, b: Seq<Seq<char>>| lexicographic(a, b, number_elem());
    let ic = |a: Seq<Seq<char>>, b: Seq<Seq<char>>| lexicographic(a, b, identifier_elem());
    assert forall|a: ParsedVersion, b: ParsedVersion|
        #[trigger] parsed_order(a, b) == parsed_order(b, a).flip() by {
        assert(nc(a.core, b.core) == nc(b.core, a.core).flip());
        if a.pre is Some && b.pre is Some {
            assert(ic(a.pre->0, b.pre->0) == ic(b.pre->0, a.pre->0).flip());
        }
    }
    assert forall|a: ParsedVersion, b: ParsedVersion|
        #[trigger] parsed_order(a, b) == Order::Equal <==> a == b by {
        assert(nc(a.core, b.core) == Order::Equal <==> a.core == b.core);
        if a.pre is Some && b.pre is Some {
            assert(ic(a.pre->0, b.pre->0) == Order::Equal <==> a.pre->0 == b.pre->0);
        }
    }
    assert forall|a: ParsedVersion, b: ParsedVersion, c: ParsedVersion|
        #[trigger] parsed_order(a, b) == Order::Less && #[trigger] parsed_order(b, c)
            == Order::Less implies parsed_order(a, c) == Order::Less by {
        assert(nc(a.core, b.core) == Order::Equal <==> a.core == b.core);
        assert(nc(b.core, c.core) == Order::Equal <==> b.core == c.core);
        assert(nc(a.core, b.core) == Order::Less && nc(b.core, c.core) == Order::Less ==> nc(
            a.core,
            c.core,
        ) == Order::Less);
        if a.pre is Some && b.pre is Some && c.pre is Some {
            assert(ic(a.pre->0, b.pre->0) == Order::Less && ic(b.pre->0, c.pre->0) == Order::Less
                ==> ic(a.pre->0, c.pre->0) == Order::Less);
        }
    }
}

/// Version precedence is a total preorder whose classes are the parse results.
pub proof fn lemma_version_order(a: Seq<char>, b: Seq<char>, c: Seq<char>)
    ensures
        version_order(a, b) == version_order(b, a).flip(),
        version_order(a, b) == Order::Equal <==> parse_version(a) == parse_version(b),
        version_order(a, b) == Order::Less && version_order(b, c) == Order::Less ==> version_order(
            a,
            c,
        ) == Order::Less,
{
    lemma_parsed_total();
    let p = |x: ParsedVersion, y: ParsedVersion| parsed_order(x, y);
    if parse_version(a) is Some && parse_version(b) is Some {
        assert(p(parse_version(a)->0, parse_version(b)->0) == p(
            parse_version(b)->0,
            parse_version(a)->0,
        ).flip());
        assert(p(parse_version(a)->0, parse_version(b)->0) == Order::Equal <==> parse_version(a)->0
            == parse_version(b)->0);
    }
    if parse_version(a) is Some && parse_version(b) is Some && parse_version(c) is Some {
        assert(p(parse_version(a)->0, parse_version(b)->0) == Order::Less && p(
            parse_version(b)->0,
            parse_version(c)->0,
        ) == Order::Less ==> p(parse_version(a)->0, parse_version(c)->0) == Order::Less);
    }
}


// Laws of `compare`, stated over `update_order`, which its contract uses.

/// Swapping current and latest flips the comparison.
pub proof fn law_compare_flips(current: Seq<char>, latest: Seq<char>)
    ensures
        update_order(current, latest) == update_order(latest, current).flip(),
{
    lemma_version_order(normalized(latest), normalized(current), normalized(current));
}

/// A version compares equal to itself.
pub proof fn law_compare_reflexive(version: Seq<char>)
    ensures
        update_order(version, version) == Order::Equal,
{
    lemma_version_order(normalized(version), normalized(version), normalized(version));
}

/// If `b` is newer than `a` and `c` newer than `b`, then `c` is newer than `a`.
pub proof fn law_compare_transitive(a: Seq<char>, b: Seq<char>, c: Seq<char>)
    requires
        update_order(a, b) == Order::Greater,
        update_order(b, c) == Order::Greater,
    ensures
        update_order(a, c) == Order::Greater,
{
    let (na, nb, nc) = (normalized(a), normalized(b), normalized(c));
    lemma_version_order(nb, na, na);
    lemma_version_order(nc, nb, nb);
    lemma_version_order(na, nb, nc);
    lemma_version_order(nc, na, na);
}

/// Two versions compare equal exactly when their normalized forms parse to the
/// same precedence parts (both invalid, or same core and prerelease).
pub proof fn law_compare_equal_iff_same_parse(a: Seq<char>, b: Seq<char>)
    ensures
        update_order(a, b) == Order::Equal <==> parse_version(normalized(a)) == parse_version(
            normalized(b),
        ),
{
    lemma_version_order(normalized(b), normalized(a), normalized(a));
}

/// An invalid current version is older than every valid latest version, and
/// invalid versions equal each other.
pub proof fn law_invalid_versions(current: Seq<char>, latest: Seq<char>)
    ensures
        parse_version(normalized(current)) is None && parse_version(normalized(latest)) is Some
            ==> update_order(current, latest) == Order::Greater,
        parse_version(normalized(current)) is None && parse_version(normalized(latest)) is None
            ==> update_order(current, latest) == Order::Equal,
{
}

proof fn lemma_trim_start_shape(s: Seq<char>)
    ensures
        trim_start(s).len() > 0 ==> !is_space(trim_start(s)[0]),
    decreases s.len(),
{
    if s.len() > 0 && is_space(s[0]) {
        lemma_trim_start_shape(s.drop_first());
    }
}

proof fn lemma_trim_end_shape(s: Seq<char>)
    ensures
        trim_end(s).len() <= s.len(),
        forall|i: int| 0 <= i < trim_end(s).len() ==> trim_end(s)[i] == s[i],
        trim_end(s).len() > 0 ==> !is_space(trim_end(s).last()),
        s.len() > 0 && !is_space(s[0]) ==> trim_end(s).len() > 0,
    decreases s.len(),
{
    if s.len() > 0 && is_space(s.last()) {
        lemma_trim_end_shape(s.drop_last());
        assert forall|i: int| 0 <= i < trim_end(s).len() implies trim_end(s)[i] == s[i] by {
            assert(s.drop_last()[i] == s[i]);
        }
    }
}

proof fn lemma_trim_shape(s: Seq<char>)
    ensures
        trim(s).len() > 0 ==> !is_space(trim(s)[0]) && !is_space(trim(s).last()),
{
    lemma_trim_start_shape(s);
    lemma_trim_end_shape(trim_start(s));
}

proof fn lemma_trim_fixed(s: Seq<char>)
    requires
        s.len() > 0,
        !is_space(s[0]),
        !is_space(s.last()),
    ensures
        trim(s) == s,
{
}

/// Normalizing a normalized version changes nothing.
pub proof fn law_normalize_idempotent(version: Seq<char>)
    ensures
        normalized(normalized(version)) == normalized(version),
{
    let t = trim(version);
    lemma_trim_shape(version);
    let n = normalized(version);
    if t.len() == 0 || t == seq!['d', 'e', 'v'] {
        lemma_trim_fixed(dev_version());
        assert(dev_version() != seq!['d', 'e', 'v']);
    } else if t[0] == 'v' {
        lemma_trim_fixed(t);
    } else {
        assert(n == seq!['v'] + t);
        assert(n[0] == 'v' && n.last() == t.last());
        lemma_trim_fixed(n);
        assert(n != seq!['d', 'e', 'v']);
    }
}

/// Comparing normalized inputs gives the same result as the raw inputs.
pub proof fn law_compare_normalizes(current: Seq<char>, latest: Seq<char>)
    ensures
        update_order(normalized(current), normalized(latest)) == update_order(current, latest),
{
    law_normalize_idempotent(current);
    law_normalize_idempotent(latest);
}

/// Build metadata does not affect precedence: a valid version with `+build`
/// appended parses to what the version without it parses to.
pub proof fn law_build_metadata_ignored(version: Seq<char>, build: Seq<char>)
    requires
        find_char(version, '+') is None,
        parse_version(version + seq!['+'] + build) is Some,
    ensures
        parse_version(version + seq!['+'] + build) == parse_version(version),
{
    let x = version + seq!['+'] + build;
    assert(version.len() > 0) by {
        if version.len() == 0 {
            assert(x[0] == '+');
        }
    }
    assert(x[0] == version[0]);
    let body_x = x.drop_first();
    let body_v = version.drop_first();
    assert forall|j: int| 0 <= j < body_v.len() implies body_v[j] != '+' by {
        if body_v[j] == '+' {
            lemma_find_char_none(version, '+', j + 1);
        }
    }
    assert(body_x =~= body_v + seq!['+'] + build);
    lemma_find_char(body_x, '+', body_v.len() as int);
    lemma_find_char(body_v, '+', body_v.len() as int);
    assert(body_x.take(body_v.len() as int) =~= body_v);
}

proof fn lemma_find_char_none(s: Seq<char>, c: char, i: int)
    requires
        find_char(s, c) is None,
        0 <= i < s.len(),
    ensures
        s[i] != c,
    decreases s.len(),
{
    if i > 0 && s[0] != c {
        lemma_find_char_none(s.drop_first(), c, i - 1);
    }
}

// Laws of the element orders: characters by code point, text
// lexicographically, identifiers numeric before alphanumeric.

/// Characters compare by code point: `Less` exactly when the first code point
/// is smaller, `Greater` exactly when it is larger.
pub proof fn law_char_order_is_code_point_order(a: char, b: char)
    ensures
        char_order(a, b) == Order::Less <==> a < b,
        char_order(a, b) == Order::Greater <==> a > b,
        char_order(a, b) == Order::Equal <==> a == b,
{
}

/// Text compares as `str` does: at the first position where the two differ the
/// smaller code point comes first, and a proper prefix comes before the longer
/// text. `k` is the length of a common prefix.
pub proof fn law_text_order_is_str_order(a: Seq<char>, b: Seq<char>, k: int)
    requires
        0 <= k <= a.len(),
        k <= b.len(),
        a.take(k) == b.take(k),
    ensures
        k < a.len() && k < b.len() && a[k] < b[k] ==> text_order(a, b)
            == Order::Less,
        k < a.len() && k < b.len() && a[k] > b[k] ==> text_order(a, b)
            == Order::Greater,
        k == a.len() && k < b.len() ==> text_order(a, b) == Order::Less,
        k == b.len() && k < a.len() ==> text_order(a, b) == Order::Greater,
        k == a.len() && k == b.len() ==> text_order(a, b) == Order::Equal,
    decreases k,
{
    if k > 0 {
        assert(a[0] == a.take(k)[0]);
        assert(b[0] == b.take(k)[0]);
        assert(a.drop_first().take(k - 1) =~= a.take(k).drop_first());
        assert(b.drop_first().take(k - 1) =~= b.take(k).drop_first());
        law_text_order_is_str_order(a.drop_first(), b.drop_first(), k - 1);
        if k < a.len() {
            assert(a.drop_first()[k - 1] == a[k]);
        }
        if k < b.len() {
            assert(b.drop_first()[k - 1] == b[k]);
        }
    }
}

/// Sequences compare at their first difference: past a common prefix of
/// length `k`, differing elements decide by the element order, and a sequence
/// that ends there comes before one that goes on. (Used for the version core,
/// number by number, and for prerelease identifiers, where `1.0.0-alpha`
/// precedes `1.0.0-alpha.1`.)
pub proof fn law_lexicographic_first_difference<T>(
    a: Seq<T>,
    b: Seq<T>,
    elem: spec_fn(T, T) -> Order,
    k: int,
)
    requires
        equal_iff_same(elem),
        0 <= k <= a.len(),
        k <= b.len(),
        a.take(k) == b.take(k),
    ensures
        k < a.len() && k < b.len() && a[k] != b[k] ==> lexicographic(a, b, elem) == elem(
            a[k],
            b[k],
        ),
        k == a.len() && k < b.len() ==> lexicographic(a, b, elem) == Order::Less,
        k == b.len() && k < a.len() ==> lexicographic(a, b, elem) == Order::Greater,
        k == a.len() && k == b.len() ==> lexicographic(a, b, elem) == Order::Equal,
    decreases k,
{
    if k > 0 {
        assert(a[0] == a.take(k)[0]);
        assert(b[0] == b.take(k)[0]);
        assert(elem(a[0], b[0]) == Order::Equal);
        assert(a.drop_first().take(k - 1) =~= a.take(k).drop_first());
        assert(b.drop_first().take(k - 1) =~= b.take(k).drop_first());
        law_lexicographic_first_difference(a.drop_first(), b.drop_first(), elem, k - 1);
        if k < a.len() {
            assert(a.drop_first()[k - 1] == a[k]);
        }
        if k < b.len() {
            assert(b.drop_first()[k - 1] == b[k]);
        }
    } else if a.len() > 0 && b.len() > 0 && a[0] != b[0] {
        assert(elem(a[0], b[0]) != Order::Equal);
    }
}

/// Prerelease identifiers: a numeric one comes before an alphanumeric one,
/// two numeric ones compare by length (they have no leading zeros) and then
/// digit by digit, and two alphanumeric ones compare as text.
pub proof fn law_identifier_order(a: Seq<char>, b: Seq<char>)
    ensures
        all_digits(a) && !all_digits(b) ==> identifier_order(a, b) == Order::Less,
        !all_digits(a) && all_digits(b) ==> identifier_order(a, b) == Order::Greater,
        all_digits(a) && all_digits(b) && a.len() < b.len() ==> identifier_order(a, b)
            == Order::Less,
        all_digits(a) && all_digits(b) && a.len() == b.len() ==> identifier_order(a, b)
            == text_order(a, b),
        !all_digits(a) && !all_digits(b) ==> identifier_order(a, b) == text_order(a, b),
{
}

/// Version numbers (without leading zeros) compare by value: the one with
/// fewer digits is smaller, and numbers of equal length compare digit by digit.
pub proof fn law_number_order(a: Seq<char>, b: Seq<char>)
    ensures
        a.len() < b.len() ==> number_order(a, b) == Order::Less,
        a.len() > b.len() ==> number_order(a, b) == Order::Greater,
        a.len() == b.len() ==> number_order(a, b) == text_order(a, b),
{
}

/// Precedence is decided by the core first: versions whose cores differ
/// compare as their cores do, number by number, whatever their prereleases;
/// with equal cores a release follows a prerelease.
pub proof fn law_core_decides_first(a: ParsedVersion, b: ParsedVersion)
    ensures
        a.core != b.core ==> parsed_order(a, b) == lexicographic(a.core, b.core, number_elem()),
        a.core != b.core ==> parsed_order(a, b) != Order::Equal,
        a.core == b.core && a.pre is None && b.pre is Some ==> parsed_order(a, b)
            == Order::Greater,
        a.core == b.core && a.pre is Some && b.pre is None ==> parsed_order(a, b) == Order::Less,
{
    lemma_number_total();
    lemma_lex_equal(a.core, b.core, number_elem());
}

/// A version without prerelease identifiers follows every prerelease of the
/// same core.
pub proof fn law_release_follows_its_prereleases(
    core: Seq<Seq<char>>,
    pre: Seq<Seq<char>>,
)
    ensures
        parsed_order(
            ParsedVersion { core, pre: None },
            ParsedVersion { core, pre: Some(pre) },
        ) == Order::Greater,
{
    lemma_number_total();
    lemma_lex_total(number_elem());
    let nc = |a: Seq<Seq<char>>, b: Seq<Seq<char>>| lexicographic(a, b, number_elem());
    assert(nc(core, core) == Order::Equal);
}

} // verus!
