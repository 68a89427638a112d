//! The grammar of the `https` endpoints that webhooks are delivered to.
use vstd::prelude::*;

use crate::text::{
    ascii_alphanumeric, chars_of, contains_char, first_index_of, only_digits, only_hex,
    parse_number, split_text,
};

verus! {

/// One to four hexadecimal digits.
pub open spec fn is_ipv6_group(text: Seq<char>) -> bool {
    1 <= text.len() <= 4 && crate::text::all_hex(text)
}

/// A number up to 255 in decimal, without leading zeros.
pub open spec fn is_ipv4_octet(text: Seq<char>) -> bool {
    &&& 1 <= text.len() <= 3
    &&& crate::text::all_digits(text)
    &&& text.len() > 1 ==> text[0] != '0'
    &&& crate::text::number_value(text, 255) is Some
}

/// Four octets with points between them.
pub open spec fn is_ipv4(text: Seq<char>) -> bool {
    let parts = crate::text::split(text, '.');
    parts.len() == 4 && forall|i: int| 0 <= i < 4 ==> is_ipv4_octet(#[trigger] parts[i])
}

/// The number of 16-bit groups that a colon-separated list holds, where each piece is a
/// group; an IPv4 address may stand for the last two of them where `embedded` allows it.
/// The empty text holds none.
pub open spec fn group_count(text: Seq<char>, embedded: bool) -> Option<int> {
    let parts = crate::text::split(text, ':');
    let n = parts.len() as int;
    if text.len() == 0 {
        Some(0)
    } else if !(forall|i: int| 0 <= i < n - 1 ==> is_ipv6_group(#[trigger] parts[i])) {
        None
    } else if is_ipv6_group(parts[n - 1]) {
        Some(n)
    } else if embedded && is_ipv4(parts[n - 1]) {
        Some(n + 1)
    } else {
        None
    }
}

/// `text` is cut in two by the `::` at place `at`, which stands for at least one group.
pub open spec fn compressed_at(text: Seq<char>, at: int) -> bool {
    &&& 0 <= at <= text.len() - 2
    &&& text[at] == ':'
    &&& text[at + 1] == ':'
    &&& group_count(text.take(at), false) is Some
    &&& group_count(text.skip(at + 2), true) is Some
    &&& group_count(text.take(at), false)->0 + group_count(text.skip(at + 2), true)->0 <= 7
}

/// An IPv6 address: eight groups, or fewer with one `::` for the missing ones.
pub open spec fn is_ipv6(text: Seq<char>) -> bool {
    group_count(text, true) == Some(8int) || exists|at: int| compressed_at(text, at)
}

/// A character of a host name.
pub open spec fn is_host_char(c: char) -> bool {
    crate::text::is_alphanumeric(c) || c == '-' || c == '.'
}

/// The part of an endpoint, behind the scheme, that names host and port.
pub open spec fn authority_of(rest: Seq<char>) -> Seq<char>
    decreases rest.len(),
{
    if rest.len() == 0 || rest[0] == '/' || rest[0] == '?' || rest[0] == '#' {
        Seq::empty()
    } else {
        seq![rest[0]] + authority_of(rest.drop_first())
    }
}

/// The place of the last `c` in `text`, where there is one.
pub open spec fn last_index(text: Seq<char>, c: char) -> Option<int>
    decreases text.len(),
{
    if text.len() == 0 {
        None
    } else if text.last() == c {
        Some(text.len() - 1)
    } else {
        last_index(text.drop_last(), c)
    }
}

/// What is wrong with what follows a bracketed host.
pub open spec fn port_fault_after_bracket(remainder: Seq<char>) -> Option<Seq<char>> {
    if remainder.len() == 0 {
        None
    } else if remainder[0] != ':' {
        Some("must separate the host and path with /"@)
    } else if remainder.len() == 1 || !crate::text::all_digits(remainder.drop_first()) {
        Some("port must be numeric"@)
    } else {
        None
    }
}

/// What is wrong with an authority whose host stands in brackets; `inside` is what
/// follows the opening one.
pub open spec fn bracketed_fault(inside: Seq<char>) -> Option<Seq<char>> {
    let close = crate::text::first_index(inside, ']');
    if close >= inside.len() {
        Some("must contain a closing ] for IPv6 hosts"@)
    } else if close == 0 {
        Some("must include a host"@)
    } else if !is_ipv6(inside.take(close)) {
        Some("must contain a valid IPv6 host inside brackets"@)
    } else {
        port_fault_after_bracket(inside.skip(close + 1))
    }
}

/// Host and port of an authority without brackets. A colon separates a port only where
/// it is the only one and something follows it.
pub open spec fn host_and_port(authority: Seq<char>) -> (Seq<char>, Option<Seq<char>>) {
    match last_index(authority, ':') {
        Some(at) => if !authority.take(at).contains(':') && at + 1 < authority.len() {
            (authority.take(at), Some(authority.skip(at + 1)))
        } else {
            (authority, None)
        },
        None => (authority, None),
    }
}

/// What is wrong with a plain host and its port.
pub open spec fn host_fault(host: Seq<char>, port: Option<Seq<char>>) -> Option<Seq<char>> {
    if host.len() == 0 || host[0] == '.' || host.last() == '.' {
        Some("must include a valid host"@)
    } else if exists|i: int| 0 <= i < host.len() && !is_host_char(#[trigger] host[i]) {
        Some("host contains invalid characters"@)
    } else if port is Some && !crate::text::all_digits(port->0) {
        Some("port must be numeric"@)
    } else {
        None
    }
}

/// What is wrong with an endpoint, `rest` being what follows its `https://`.
pub open spec fn endpoint_fault(rest: Seq<char>) -> Option<Seq<char>> {
    let authority = authority_of(rest);
    if authority.len() == 0 {
        Some("must include a host"@)
    } else if authority.contains('@') {
        Some("must not contain userinfo"@)
    } else if authority[0] == '[' {
        bracketed_fault(authority.drop_first())
    } else {
        let (host, port) = host_and_port(authority);
        host_fault(host, port)
    }
}

fn checks_as_ipv4(text: &str) -> (r: bool)
    ensures
        r == is_ipv4(text@),
{
    let parts = split_text(text, '.');
    let ghost all = parts.deep_view();
    if parts.len() != 4 {
        return false;
    }
    let mut i: usize = 0;
    while i < 4
        invariant
            i <= 4,
            parts.len() == 4,
            all == parts.deep_view(),
            all == crate::text::split(text@, '.'),
            forall|j: int| 0 <= j < i ==> is_ipv4_octet(#[trigger] all[j]),
        decreases 4 - i,
    {
        assert(all[i as int] == parts[i as int]@);
        if !checks_as_octet(parts[i].as_str()) {
            return false;
        }
        i += 1;
    }
    true
}

fn checks_as_octet(text: &str) -> (r: bool)
    ensures
        r == is_ipv4_octet(text@),
{
    let n: usize = text.unicode_len();
    if n == 0 || n > 3 || !only_digits(text) || (n > 1 && text.get_char(0) == '0') {
        return false;
    }
    match parse_number(text) {
        Some(value) => value <= 255,
        None => {
            proof {
                assert(crate::text::number_value(text@, usize::MAX as nat) is None);
            }
            false
        },
    }
}

fn checks_as_group(text: &str) -> (r: bool)
    ensures
        r == is_ipv6_group(text@),
{
    let n: usize = text.unicode_len();
    1 <= n && n <= 4 && only_hex(text)
}

/// The groups of a list, where it is one and holds no more than an address has.
fn count_groups(text: &str, embedded: bool) -> (r: Option<usize>)
    ensures
        match r {
            Some(n) => n <= 8 && group_count(text@, embedded) == Some(n as int),
            None => match group_count(text@, embedded) {
                Some(count) => count > 8,
                None => true,
            },
        },
{
    if text.is_empty() {
        return Some(0);
    }
    let parts = split_text(text, ':');
    let ghost all = parts.deep_view();
    proof {
        lemma_split_is_not_empty(text@, ':');
    }
    assert(all.len() == parts.len());
    let n: usize = parts.len();
    if n > 8 {
        return None;
    }
    let mut i: usize = 0;
    while i < n - 1
        invariant
            i <= n - 1,
            1 <= n == parts.len(),
            n <= 8,
            all == parts.deep_view(),
            all == crate::text::split(text@, ':'),
            text@.len() > 0,
            forall|j: int| 0 <= j < i ==> is_ipv6_group(#[trigger] all[j]),
        decreases n - i,
    {
        assert(all[i as int] == parts[i as int]@);
        if !checks_as_group(parts[i].as_str()) {
            assert(!is_ipv6_group(all[i as int]));
            return None;
        }
        i += 1;
    }
    assert(all[n - 1] == parts[n - 1]@);
    if checks_as_group(parts[n - 1].as_str()) {
        Some(n)
    } else if n < 8 && embedded && checks_as_ipv4(parts[n - 1].as_str()) {
        Some(n + 1)
    } else {
        None
    }
}

proof fn lemma_split_is_not_empty(text: Seq<char>, separator: char)
    ensures
        crate::text::split(text, separator).len() > 0,
    decreases text.len(),
{
    if text.len() > 0 {
        lemma_split_is_not_empty(text.drop_last(), separator);
    }
}

/// Whether a text is an IPv6 address.
pub fn checks_as_ipv6(text: &str) -> (r: bool)
    ensures
        r == is_ipv6(text@),
{
    match count_groups(text, true) {
        Some(n) => {
            if n == 8 {
                return true;
            }
        },
        None => {},
    }
    let chars = chars_of(text);
    let n: usize = chars.len();
    let mut i: usize = 0;
    while i < n && n - i >= 2
        invariant
            i <= n == chars.len(),
            chars@ == text@,
            group_count(text@, true) != Some(8int),
            forall|at: int| 0 <= at < i ==> !#[trigger] compressed_at(text@, at),
        decreases n - i,
    {
        if chars[i] == ':' && chars[i + 1] == ':' {
            proof {
                assert(text@.subrange(0, i as int) =~= text@.take(i as int));
                assert(text@.subrange(i + 2, n as int) =~= text@.skip(i + 2));
            }
            let head = count_groups(text.substring_char(0, i), false);
            let tail = count_groups(text.substring_char(i + 2, n), true);
            match (head, tail) {
                (Some(h), Some(t)) => {
                    if h <= 7 && t <= 7 - h {
                        assert(compressed_at(text@, i as int));
                        return true;
                    }
                },
                _ => {},
            }
        }
        assert(!compressed_at(text@, i as int));
        i += 1;
    }
    false
}

/// The part of an endpoint, behind the scheme, that names host and port.
fn read_authority(rest: &str) -> (r: &str)
    ensures
        r@ == authority_of(rest@),
{
    let chars = chars_of(rest);
    let n: usize = chars.len();
    let mut i: usize = 0;
    proof {
        assert(rest@.skip(0) =~= rest@);
        assert(authority_of(rest@) =~= rest@.take(0) + authority_of(rest@.skip(0)));
    }
    while i < n && chars[i] != '/' && chars[i] != '?' && chars[i] != '#'
        invariant
            i <= n == chars.len(),
            chars@ == rest@,
            authority_of(rest@) == rest@.take(i as int) + authority_of(rest@.skip(i as int)),
        decreases n - i,
    {
        proof {
            let tail = rest@.skip(i as int);
            assert(tail.drop_first() =~= rest@.skip(i + 1));
            assert(rest@.take(i as int) + (seq![tail[0]] + authority_of(rest@.skip(i + 1)))
                =~= rest@.take(i + 1) + authority_of(rest@.skip(i + 1)));
        }
        i += 1;
    }
    proof {
        assert(authority_of(rest@.skip(i as int)) =~= Seq::<char>::empty());
        assert(rest@.take(i as int) + Seq::<char>::empty() =~= rest@.take(i as int));
        assert(rest@.subrange(0, i as int) =~= rest@.take(i as int));
    }
    rest.substring_char(0, i)
}

fn check_bracketed(inside: &str) -> (r: Option<&'static str>)
    ensures
        r.deep_view() == bracketed_fault(inside@),
{
    let n: usize = inside.unicode_len();
    let close: usize = first_index_of(inside, ']');
    if close >= n {
        return Some("must contain a closing ] for IPv6 hosts");
    }
    if close == 0 {
        return Some("must include a host");
    }
    proof {
        assert(inside@.subrange(0, close as int) =~= inside@.take(close as int));
        assert(inside@.subrange(close + 1, n as int) =~= inside@.skip(close + 1));
    }
    if !checks_as_ipv6(inside.substring_char(0, close)) {
        return Some("must contain a valid IPv6 host inside brackets");
    }
    let remainder = inside.substring_char(close + 1, n);
    if remainder.is_empty() {
        return None;
    }
    if remainder.get_char(0) != ':' {
        return Some("must separate the host and path with /");
    }
    let m: usize = remainder.unicode_len();
    proof {
        assert(remainder@.subrange(1, m as int) =~= remainder@.drop_first());
    }
    let port = remainder.substring_char(1, m);
    if port.is_empty() || !only_digits(port) {
        return Some("port must be numeric");
    }
    None
}

fn last_index_of(text: &str, c: char) -> (r: Option<usize>)
    ensures
        match r {
            Some(at) => last_index(text@, c) == Some(at as int) && at < text@.len(),
            None => last_index(text@, c) is None,
        },
{
    let chars = chars_of(text);
    let mut i: usize = chars.len();
    assert(text@.take(i as int) =~= text@);
    while i > 0
        invariant
            i <= chars.len(),
            chars@ == text@,
            last_index(text@, c) == last_index(text@.take(i as int), c),
        decreases i,
    {
        proof {
            assert(text@.take(i as int).last() == chars@[i - 1]);
            assert(text@.take(i as int).drop_last() =~= text@.take(i - 1));
        }
        if chars[i - 1] == c {
            return Some(i - 1);
        }
        i -= 1;
    }
    None
}

fn check_host(host: &str, port: Option<&str>) -> (r: Option<&'static str>)
    ensures
        r.deep_view() == host_fault(host@, port.deep_view()),
{
    let n: usize = host.unicode_len();
    if n == 0 || host.get_char(0) == '.' || host.get_char(n - 1) == '.' {
        return Some("must include a valid host");
    }
    let chars = chars_of(host);
    let mut i: usize = 0;
    while i < n
        invariant
            i <= n == chars.len(),
            chars@ == host@,
            n > 0,
            host@[0] != '.',
            host@.last() != '.',
            forall|j: int| 0 <= j < i ==> is_host_char(#[trigger] host@[j]),
        decreases n - i,
    {
        let c = chars[i];
        if !(ascii_alphanumeric(c) || c == '-' || c == '.') {
            assert(!is_host_char(host@[i as int]));
            return Some("host contains invalid characters");
        }
        i += 1;
    }
    match port {
        Some(port) => {
            if !only_digits(port) {
                return Some("port must be numeric");
            }
        },
        None => {},
    }
    None
}

/// What is wrong with an endpoint, `rest` being what follows its `https://`.
pub fn check_endpoint(rest: &str) -> (r: Option<&'static str>)
    ensures
        r.deep_view() == endpoint_fault(rest@),
{
    let authority = read_authority(rest);
    if authority.is_empty() {
        return Some("must include a host");
    }
    if contains_char(authority, '@') {
        return Some("must not contain userinfo");
    }
    let n: usize = authority.unicode_len();
    if authority.get_char(0) == '[' {
        assert(authority@.subrange(1, n as int) =~= authority@.drop_first());
        return check_bracketed(authority.substring_char(1, n));
    }
    match last_index_of(authority, ':') {
        Some(at) => {
            proof {
                assert(authority@.subrange(0, at as int) =~= authority@.take(at as int));
                assert(authority@.subrange(at + 1, n as int) =~= authority@.skip(at + 1));
            }
            let host = authority.substring_char(0, at);
            if !contains_char(host, ':') && at + 1 < n {
                return check_host(host, Some(authority.substring_char(at + 1, n)));
            }
        },
        None => {},
    }
    check_host(authority, None)
}

} // verus!
