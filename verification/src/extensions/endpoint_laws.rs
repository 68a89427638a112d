//! Which endpoints name a host.
use vstd::prelude::*;

use crate::extensions::endpoint;

verus! {

/// What may follow the host and its port: a path, a query or a fragment, or nothing.
pub open spec fn is_tail(words: Seq<char>) -> bool {
    words.len() > 0 ==> words[0] == '/' || words[0] == '?' || words[0] == '#'
}

/// The name of a host: letters, digits, hyphens and points, no point at either end.
pub open spec fn is_host(words: Seq<char>) -> bool {
    &&& words.len() > 0
    &&& words[0] != '.'
    &&& words[words.len() - 1] != '.'
    &&& forall|i: int|
        0 <= i < words.len() ==> {
            ||| 'a' <= #[trigger] words[i] <= 'z'
            ||| 'A' <= words[i] <= 'Z'
            ||| '0' <= words[i] <= '9'
            ||| words[i] == '-'
            ||| words[i] == '.'
        }
}

/// A port: decimal digits.
pub open spec fn is_port(words: Seq<char>) -> bool {
    words.len() > 0 && forall|i: int| 0 <= i < words.len() ==> '0' <= #[trigger] words[i] <= '9'
}

/// A host, and a port behind a colon where there is one.
pub open spec fn is_place(words: Seq<char>) -> bool {
    ||| is_host(words)
    ||| exists|at: int|
        {
            &&& 0 <= at < words.len()
            &&& #[trigger] words[at] == ':'
            &&& is_host(words.take(at))
            &&& is_port(words.skip(at + 1))
        }
}

/// A numbered host in brackets, and a port behind a colon where there is one.
pub open spec fn is_numbered_place(words: Seq<char>) -> bool {
    exists|close: int|
        {
            &&& 1 < close < words.len()
            &&& words[0] == '['
            &&& #[trigger] words[close] == ']'
            &&& endpoint::is_ipv6(words.subrange(1, close))
            &&& forall|i: int| 1 <= i < close ==> #[trigger] words[i] != ']'
            &&& close + 1 < words.len() ==> words[close + 1] == ':' && is_port(
                words.skip(close + 2),
            )
        }
}

/// The words up to a tail.
pub open spec fn stops_at(words: Seq<char>, at: int) -> bool {
    &&& 0 <= at <= words.len()
    &&& is_tail(words.skip(at))
    &&& forall|i: int|
        0 <= i < at ==> #[trigger] words[i] != '/' && words[i] != '?' && words[i] != '#'
}

/// What names host and port of an endpoint ends where its path, query or fragment begins.
pub proof fn law_authorities_end_at_the_path(rest: Seq<char>)
    ensures
        stops_at(rest, endpoint::authority_of(rest).len() as int),
        endpoint::authority_of(rest) == rest.take(endpoint::authority_of(rest).len() as int),
    decreases rest.len(),
{
    let authority = endpoint::authority_of(rest);
    if rest.len() == 0 || rest[0] == '/' || rest[0] == '?' || rest[0] == '#' {
        assert(rest.skip(0) =~= rest);
        assert(authority =~= rest.take(0));
    } else {
        let tail = rest.drop_first();
        let before = endpoint::authority_of(tail);
        law_authorities_end_at_the_path(tail);
        let n = authority.len() as int;
        assert(authority == seq![rest[0]] + before);
        assert(authority =~= rest.take(n)) by {
            assert forall|i: int| 0 <= i < n implies authority[i] == rest.take(n)[i] by {
                if i > 0 {
                    assert(authority[i] == before[i - 1]);
                    assert(before[i - 1] == tail.take(n - 1)[i - 1]);
                }
            }
        }
        assert(rest.skip(n) =~= tail.skip(n - 1));
        assert forall|i: int| 0 <= i < n implies #[trigger] rest[i] != '/' && rest[i] != '?'
            && rest[i] != '#' by {
            if i > 0 {
                assert(rest[i] == tail[i - 1]);
            }
        }
    }
}

proof fn lemma_last_index(words: Seq<char>, c: char)
    ensures
        endpoint::last_index(words, c) is None <==> !words.contains(c),
        endpoint::last_index(words, c) matches Some(at) ==> {
            &&& 0 <= at < words.len()
            &&& words[at] == c
            &&& forall|i: int| at < i < words.len() ==> #[trigger] words[i] != c
        },
    decreases words.len(),
{
    if words.len() > 0 {
        let front = words.drop_last();
        if words.last() == c {
            assert(words[words.len() - 1] == c);
        } else {
            lemma_last_index(front, c);
            if words.contains(c) {
                let i = choose|i: int| 0 <= i < words.len() && words[i] == c;
                assert(front[i] == c);
            }
            if front.contains(c) {
                let i = choose|i: int| 0 <= i < front.len() && front[i] == c;
                assert(words[i] == c);
            }
            if endpoint::last_index(words, c) is Some {
                let at = endpoint::last_index(words, c)->0;
                assert forall|i: int| at < i < words.len() implies #[trigger] words[i] != c by {
                    if i < front.len() {
                        assert(front[i] == words[i]);
                    }
                }
            }
        }
    }
}

proof fn lemma_host(words: Seq<char>)
    ensures
        endpoint::host_fault(words, None) is None <==> is_host(words),
{
    if is_host(words) {
        assert forall|i: int| 0 <= i < words.len() implies endpoint::is_host_char(
            #[trigger] words[i],
        ) by {}
    }
    if endpoint::host_fault(words, None) is None {
        assert forall|i: int| 0 <= i < words.len() implies {
            ||| 'a' <= #[trigger] words[i] <= 'z'
            ||| 'A' <= words[i] <= 'Z'
            ||| '0' <= words[i] <= '9'
            ||| words[i] == '-'
            ||| words[i] == '.'
        } by {
            assert(endpoint::is_host_char(words[i]));
        }
    }
}

proof fn lemma_port(words: Seq<char>)
    ensures
        words.len() > 0 && crate::text::all_digits(words) <==> is_port(words),
{
    if crate::text::all_digits(words) {
        assert forall|i: int| 0 <= i < words.len() implies '0' <= #[trigger] words[i] <= '9' by {
            assert(crate::text::is_digit(words[i]));
        }
    }
}

proof fn lemma_place(words: Seq<char>)
    ensures
        ({
            let (host, port) = endpoint::host_and_port(words);
            endpoint::host_fault(host, port) is None <==> is_place(words)
        }),
{
    let (host, port) = endpoint::host_and_port(words);
    lemma_last_index(words, ':');
    lemma_host(words);
    lemma_host(host);
    match endpoint::last_index(words, ':') {
        None => {
            assert(!is_place(words) || is_host(words)) by {
                if is_place(words) && !is_host(words) {
                    let at = choose|at: int|
                        {
                            &&& 0 <= at < words.len()
                            &&& #[trigger] words[at] == ':'
                            &&& is_host(words.take(at))
                            &&& is_port(words.skip(at + 1))
                        };
                    assert(words.contains(words[at]));
                }
            }
        },
        Some(last) => {
            assert(!is_host(words)) by {
                if is_host(words) {
                    assert(words[last] == ':');
                }
            }
            if !words.take(last).contains(':') && last + 1 < words.len() {
                lemma_port(words.skip(last + 1));
                if endpoint::host_fault(host, port) is None {
                    assert(endpoint::host_fault(host, None) is None);
                    assert(words[last] == ':');
                    assert(is_place(words));
                }
                if is_place(words) {
                    let at = choose|at: int|
                        {
                            &&& 0 <= at < words.len()
                            &&& #[trigger] words[at] == ':'
                            &&& is_host(words.take(at))
                            &&& is_port(words.skip(at + 1))
                        };
                    if at < last {
                        assert(words.skip(at + 1)[last - at - 1] == ':');
                    }
                    assert(at == last);
                    assert(endpoint::host_fault(host, None) is None);
                }
            } else if is_place(words) {
                let at = choose|at: int|
                    {
                        &&& 0 <= at < words.len()
                        &&& #[trigger] words[at] == ':'
                        &&& is_host(words.take(at))
                        &&& is_port(words.skip(at + 1))
                    };
                if at < last {
                    assert(words.skip(at + 1)[last - at - 1] == ':');
                }
                assert(at == last);
                if words.take(last).contains(':') {
                    let i = choose|i: int|
                        0 <= i < words.take(last).len() && words.take(last)[i] == ':';
                    assert(words.take(at)[i] == ':');
                }
            }
        },
    }
}

proof fn lemma_numbered_place(words: Seq<char>)
    requires
        words.len() > 0,
        words[0] == '[',
    ensures
        endpoint::bracketed_fault(words.drop_first()) is None <==> is_numbered_place(words),
{
    let inside = words.drop_first();
    let close = crate::text::first_index(inside, ']');
    crate::text_laws::law_first_place_is_the_first(inside, ']');
    if 0 < close < inside.len() {
        assert(inside.take(close) =~= words.subrange(1, close + 1));
        let remainder = inside.skip(close + 1);
        assert(remainder =~= words.skip(close + 2));
        if remainder.len() > 0 {
            assert(remainder.drop_first() =~= words.skip(close + 3));
            lemma_port(words.skip(close + 3));
        }
        assert forall|i: int| 1 <= i < close + 1 implies #[trigger] words[i] != ']' by {
            assert(inside[i - 1] != ']');
        }
        assert(words[close + 1] == ']');
    }
    if is_numbered_place(words) {
        let at = choose|at: int|
            {
                &&& 1 < at < words.len()
                &&& words[0] == '['
                &&& #[trigger] words[at] == ']'
                &&& endpoint::is_ipv6(words.subrange(1, at))
                &&& forall|i: int| 1 <= i < at ==> #[trigger] words[i] != ']'
                &&& at + 1 < words.len() ==> words[at + 1] == ':' && is_port(words.skip(at + 2))
            };
        assert(inside[at - 1] == ']');
        if close < at - 1 {
            assert(words[close + 1] == ']');
        }
        if at - 1 < close {
            assert(inside[at - 1] != ']');
        }
        assert(close == at - 1);
    }
}

/// An endpoint is accepted exactly where what stands before its path, query or fragment is a
/// host by name or by number, with a port of digits where a colon follows; there is no room
/// for anything else.
pub proof fn law_endpoints_name_a_host(rest: Seq<char>, at: int)
    requires
        stops_at(rest, at),
    ensures
        endpoint::endpoint_fault(rest) is None <==> {
            let place = rest.take(at);
            ||| place.len() > 0 && place[0] != '[' && is_place(place)
            ||| is_numbered_place(place) && !place.contains('@')
        },
{
    law_authorities_end_at_the_path(rest);
    let authority = endpoint::authority_of(rest);
    let n = authority.len() as int;
    if n < at {
        assert(rest.skip(n)[0] == rest[n]);
    }
    if at < n {
        assert(rest.skip(at)[0] == rest[at]);
    }
    assert(n == at);
    let place = rest.take(at);
    if place.len() > 0 {
        lemma_place(place);
        if place[0] == '[' {
            lemma_numbered_place(place);
        } else if is_place(place) && place.contains('@') {
            let i = choose|i: int| 0 <= i < place.len() && place[i] == '@';
            if !is_host(place) {
                let colon = choose|colon: int|
                    {
                        &&& 0 <= colon < place.len()
                        &&& #[trigger] place[colon] == ':'
                        &&& is_host(place.take(colon))
                        &&& is_port(place.skip(colon + 1))
                    };
                if i < colon {
                    assert(place.take(colon)[i] == '@');
                } else {
                    assert(place.skip(colon + 1)[i - colon - 1] == '@');
                }
            }
        }
    }
}

/// A group of a numbered host: one to four hexadecimal digits.
pub open spec fn is_group(words: Seq<char>) -> bool {
    &&& 1 <= words.len() <= 4
    &&& forall|i: int|
        0 <= i < words.len() ==> {
            ||| '0' <= #[trigger] words[i] <= '9'
            ||| 'a' <= words[i] <= 'f'
            ||| 'A' <= words[i] <= 'F'
        }
}

proof fn lemma_group(words: Seq<char>)
    ensures
        is_group(words) <==> endpoint::is_ipv6_group(words),
{
    if endpoint::is_ipv6_group(words) {
        assert forall|i: int| 0 <= i < words.len() implies {
            ||| '0' <= #[trigger] words[i] <= '9'
            ||| 'a' <= words[i] <= 'f'
            ||| 'A' <= words[i] <= 'F'
        } by {
            assert(crate::text::is_hex_digit(words[i]));
        }
    }
}

/// The number that a row of decimal digits stands for.
pub open spec fn value(row: Seq<char>) -> int
    decreases row.len(),
{
    if row.len() == 0 {
        0
    } else {
        10 * value(row.drop_last()) + (row.last() as int - '0' as int)
    }
}

/// An octet is a number from 0 to 255, written without needless zeros.
pub proof fn law_octets_are_small_numbers(words: Seq<char>)
    ensures
        endpoint::is_ipv4_octet(words) <==> {
            &&& is_port(words)
            &&& words.len() <= 3
            &&& value(words) <= 255
            &&& words[0] == '0' ==> words.len() == 1
        },
{
    lemma_port(words);
    if is_port(words) {
        lemma_value(words);
        crate::text_laws::law_numbers_are_rows_of_digits(words, 255);
        assert(words[0] != '+');
    }
}

proof fn lemma_value(row: Seq<char>)
    requires
        is_port(row),
    ensures
        crate::text::digits_value(row) is Some,
        crate::text::digits_value(row)->0 == value(row),
    decreases row.len(),
{
    let front = row.drop_last();
    let last = row.last();
    assert('0' <= row[row.len() - 1] <= '9');
    if row.len() > 1 {
        assert forall|i: int| 0 <= i < front.len() implies '0' <= #[trigger] front[i] <= '9' by {
            assert(front[i] == row[i]);
        }
        lemma_value(front);
        crate::text_laws::law_digits_count_by_tens(front, last);
        assert(front.push(last) =~= row);
    } else {
        assert(value(front) == 0);
        assert(row =~= seq![last]);
        crate::text_laws::law_numbers_are_rows_of_digits(row, 255);
        crate::text_laws::law_digits_count_by_tens(row, last);
    }
}

/// Four octets with points between them are an old numbered host, and nothing else is.
pub proof fn law_old_numbers_have_four_octets(words: Seq<char>)
    ensures
        endpoint::is_ipv4(words) <==> {
            let octets = crate::text::split(words, '.');
            &&& octets.len() == 4
            &&& endpoint::is_ipv4_octet(octets[0])
            &&& endpoint::is_ipv4_octet(octets[1])
            &&& endpoint::is_ipv4_octet(octets[2])
            &&& endpoint::is_ipv4_octet(octets[3])
        },
{
}

/// How many groups some words are: groups with colons between them, the last two of which an
/// old numbered host may stand for where it is allowed.
pub open spec fn are_groups(words: Seq<char>, count: int, old_last: bool) -> bool {
    let pieces = crate::text::split(words, ':');
    let n = pieces.len() as int;
    if words.len() == 0 {
        count == 0
    } else {
        &&& forall|i: int| 0 <= i < n - 1 ==> is_group(#[trigger] pieces[i])
        &&& {
            ||| is_group(pieces[n - 1]) && count == n
            ||| old_last && endpoint::is_ipv4(pieces[n - 1]) && !is_group(pieces[n - 1]) && count
                == n + 1
        }
    }
}

proof fn lemma_groups(words: Seq<char>, count: int, old_last: bool)
    ensures
        are_groups(words, count, old_last) <==> endpoint::group_count(words, old_last) == Some(
            count,
        ),
{
    let pieces = crate::text::split(words, ':');
    let n = pieces.len() as int;
    assert forall|i: int| 0 <= i < n implies (is_group(#[trigger] pieces[i])
        <==> endpoint::is_ipv6_group(pieces[i])) by {
        lemma_group(pieces[i]);
    }
    crate::text_laws::law_split_is_undone_by_joining(words, ':');
    if words.len() > 0 {
        lemma_group(pieces[n - 1]);
        if forall|i: int| 0 <= i < n - 1 ==> is_group(#[trigger] pieces[i]) {
            assert forall|i: int| 0 <= i < n - 1 implies endpoint::is_ipv6_group(
                #[trigger] pieces[i],
            ) by {
                assert(is_group(pieces[i]));
            }
        } else {
            let i = choose|i: int| 0 <= i < n - 1 && !is_group(#[trigger] pieces[i]);
            assert(!endpoint::is_ipv6_group(pieces[i]));
        }
    }
}

/// A numbered host has eight groups, or fewer around one double colon that stands for those
/// that are missing, one at least.
pub proof fn law_numbered_hosts_have_eight_groups(words: Seq<char>)
    ensures
        endpoint::is_ipv6(words) <==> are_groups(words, 8, true) || exists|
            at: int,
            before: int,
            after: int,
        |
            {
                &&& 0 <= at <= words.len() - 2
                &&& words[at] == ':'
                &&& words[at + 1] == ':'
                &&& #[trigger] are_groups(words.take(at), before, false)
                &&& #[trigger] are_groups(words.skip(at + 2), after, true)
                &&& before + after <= 7
            },
{
    lemma_groups(words, 8, true);
    if exists|at: int| endpoint::compressed_at(words, at) {
        let at = choose|at: int| endpoint::compressed_at(words, at);
        let before = endpoint::group_count(words.take(at), false)->0;
        let after = endpoint::group_count(words.skip(at + 2), true)->0;
        lemma_groups(words.take(at), before, false);
        lemma_groups(words.skip(at + 2), after, true);
        assert(are_groups(words.take(at), before, false));
        assert(are_groups(words.skip(at + 2), after, true));
    }
    assert forall|at: int, before: int, after: int|
        {
            &&& 0 <= at <= words.len() - 2
            &&& words[at] == ':'
            &&& words[at + 1] == ':'
            &&& #[trigger] are_groups(words.take(at), before, false)
            &&& #[trigger] are_groups(words.skip(at + 2), after, true)
            &&& before + after <= 7
        } implies endpoint::compressed_at(words, at) by {
        lemma_groups(words.take(at), before, false);
        lemma_groups(words.skip(at + 2), after, true);
    }
}

} // verus!
