//! What trimming, folding, ordering and splitting do to texts.
use vstd::prelude::*;

verus! {

/// Every character of the text is white space.
pub open spec fn all_white(text: Seq<char>) -> bool {
    forall|i: int| 0 <= i < text.len() ==> crate::text::is_white(#[trigger] text[i])
}

/// The text is empty, or neither starts nor ends with white space.
pub open spec fn bare(text: Seq<char>) -> bool {
    text.len() > 0 ==> !crate::text::is_white(text[0]) && !crate::text::is_white(text[text.len() - 1])
}

/// Among the ASCII characters, white space is the tab, the line breaks and feeds, and the
/// blank.
pub proof fn law_ascii_white_space(c: char)
    requires
        c as u32 <= 127,
    ensures
        crate::text::is_white(c) <==> c == '\t' || c == '\n' || c == '\r' || c == ' ' || c as u32 == 11
            || c as u32 == 12,
{
}

/// Beyond ASCII, white space is the next line, the spaces of the typographers, and the line
/// and paragraph separators.
pub proof fn law_other_white_space(c: char)
    requires
        c as u32 > 127,
    ensures
        crate::text::is_white(c) <==> c as u32 == 0x85 || c as u32 == 0xa0 || c as u32 == 0x1680
            || 0x2000 <= c as u32 <= 0x200a || c as u32 == 0x2028 || c as u32 == 0x2029 || c as u32
            == 0x202f || c as u32 == 0x205f || c as u32 == 0x3000,
{
}

/// No letter, digit or sign of punctuation is white space.
pub proof fn law_signs_are_not_white_space(c: char)
    requires
        33 <= c as u32 <= 126,
    ensures
        !crate::text::is_white(c),
{
}

proof fn lemma_trim_start(before: Seq<char>, rest: Seq<char>)
    requires
        all_white(before),
        rest.len() > 0 ==> !crate::text::is_white(rest[0]),
    ensures
        crate::text::trim_start(before + rest) == rest,
    decreases before.len(),
{
    let whole = before + rest;
    if before.len() > 0 {
        assert(crate::text::is_white(before[0]));
        assert(whole.drop_first() =~= before.drop_first() + rest);
        assert forall|i: int| 0 <= i < before.drop_first().len() implies crate::text::is_white(
            #[trigger] before.drop_first()[i],
        ) by {
            assert(crate::text::is_white(before[i + 1]));
        }
        lemma_trim_start(before.drop_first(), rest);
    } else {
        assert(whole =~= rest);
    }
}

proof fn lemma_trim_end(core: Seq<char>, after: Seq<char>)
    requires
        all_white(after),
        bare(core),
    ensures
        crate::text::trim_end(core + after) == core,
    decreases after.len(),
{
    let whole = core + after;
    if after.len() > 0 {
        assert(crate::text::is_white(after[after.len() - 1]));
        assert(whole.drop_last() =~= core + after.drop_last());
        assert forall|i: int| 0 <= i < after.drop_last().len() implies crate::text::is_white(
            #[trigger] after.drop_last()[i],
        ) by {
            assert(crate::text::is_white(after[i]));
        }
        lemma_trim_end(core, after.drop_last());
    } else {
        assert(whole =~= core);
    }
}

/// Trimming takes away the white space around a text and nothing else.
pub proof fn law_trimming_takes_the_white_space_around(
    before: Seq<char>,
    core: Seq<char>,
    after: Seq<char>,
)
    requires
        all_white(before),
        all_white(after),
        bare(core),
    ensures
        crate::text::trimmed(before + core + after) == core,
{
    let rest = core + after;
    assert(before + core + after =~= before + rest);
    if core.len() > 0 {
        assert(rest[0] == core[0]);
        lemma_trim_start(before, rest);
        lemma_trim_end(core, after);
    } else {
        assert(rest =~= after);
        let white = before + after;
        assert(before + rest =~= white);
        assert forall|i: int| 0 <= i < white.len() implies crate::text::is_white(#[trigger] white[i]) by {
            if i < before.len() {
                assert(crate::text::is_white(before[i]));
            } else {
                assert(crate::text::is_white(after[i - before.len()]));
            }
        }
        lemma_trim_start(white, Seq::empty());
        assert(white + Seq::<char>::empty() =~= white);
        assert(core =~= Seq::empty());
    }
}

/// A text is blank exactly where it holds nothing but white space.
pub proof fn law_blank_is_white(words: Seq<char>)
    ensures
        crate::text::is_blank(words) <==> all_white(words),
    decreases words.len(),
{
    if all_white(words) {
        law_trimming_takes_the_white_space_around(words, Seq::empty(), Seq::empty());
        assert(words + Seq::<char>::empty() + Seq::<char>::empty() =~= words);
    } else {
        let i = choose|i: int| 0 <= i < words.len() && !crate::text::is_white(#[trigger] words[i]);
        lemma_start_keeps(words, i);
        let rest = crate::text::trim_start(words);
        let j = i - (words.len() - rest.len());
        lemma_end_keeps(rest, j);
    }
}

proof fn lemma_start_keeps(words: Seq<char>, i: int)
    requires
        0 <= i < words.len(),
        !crate::text::is_white(words[i]),
    ensures
        ({
            let rest = crate::text::trim_start(words);
            let j = i - (words.len() - rest.len());
            &&& rest.len() <= words.len()
            &&& 0 <= j < rest.len()
            &&& rest[j] == words[i]
        }),
    decreases words.len(),
{
    if crate::text::is_white(words[0]) {
        lemma_start_keeps(words.drop_first(), i - 1);
    }
}

proof fn lemma_end_keeps(words: Seq<char>, i: int)
    requires
        0 <= i < words.len(),
        !crate::text::is_white(words[i]),
    ensures
        crate::text::trim_end(words).len() > i,
    decreases words.len(),
{
    if crate::text::is_white(words.last()) {
        lemma_end_keeps(words.drop_last(), i);
    }
}

/// What trimming took away was white space, and what is left is bare.
pub proof fn law_trimmed_text_is_what_is_between(words: Seq<char>)
    ensures
        exists|before: Seq<char>, after: Seq<char>|
            {
                &&& #[trigger] all_white(before)
                &&& #[trigger] all_white(after)
                &&& words == before + crate::text::trimmed(words) + after
            },
        bare(crate::text::trimmed(words)),
{
    let rest = crate::text::trim_start(words);
    let core = crate::text::trimmed(words);
    lemma_start_splits(words);
    lemma_end_splits(rest);
    let before = words.take(words.len() - rest.len());
    let after = rest.skip(core.len() as int);
    assert(words =~= before + core + after);
    crate::text::lemma_trimmed_edges(words);
}

proof fn lemma_start_splits(words: Seq<char>)
    ensures
        ({
            let rest = crate::text::trim_start(words);
            &&& rest.len() <= words.len()
            &&& rest == words.skip(words.len() - rest.len())
            &&& all_white(words.take(words.len() - rest.len()))
        }),
    decreases words.len(),
{
    let rest = crate::text::trim_start(words);
    if words.len() > 0 && crate::text::is_white(words[0]) {
        let tail = words.drop_first();
        lemma_start_splits(tail);
        let n = words.len() - rest.len();
        assert(tail.skip(n - 1) =~= words.skip(n));
        assert forall|i: int| 0 <= i < n implies crate::text::is_white(#[trigger] words.take(n)[i]) by {
            if i > 0 {
                assert(tail.take(n - 1)[i - 1] == words[i]);
            }
        }
    } else {
        assert(words.skip(0) =~= words);
    }
}

proof fn lemma_end_splits(words: Seq<char>)
    ensures
        ({
            let core = crate::text::trim_end(words);
            &&& core.len() <= words.len()
            &&& core == words.take(core.len() as int)
            &&& all_white(words.skip(core.len() as int))
        }),
    decreases words.len(),
{
    let core = crate::text::trim_end(words);
    if words.len() > 0 && crate::text::is_white(words.last()) {
        let front = words.drop_last();
        lemma_end_splits(front);
        let n = core.len() as int;
        assert(front.take(n) =~= words.take(n));
        assert forall|i: int| 0 <= i < words.len() - n implies crate::text::is_white(
            #[trigger] words.skip(n)[i],
        ) by {
            if i < front.len() - n {
                assert(front.skip(n)[i] == words[n + i]);
            }
        }
    } else {
        assert(words.take(words.len() as int) =~= words);
    }
}

/// A text comes before another exactly where it is a proper beginning of it, or has the
/// smaller character at the first place at which they differ.
pub proof fn law_order_is_by_the_first_difference(a: Seq<char>, b: Seq<char>)
    ensures
        crate::text::text_before(a, b) <==> {
            ||| a.len() < b.len() && a == b.take(a.len() as int)
            ||| exists|i: int|
                {
                    &&& 0 <= i < a.len()
                    &&& i < b.len()
                    &&& #[trigger] a[i] < b[i]
                    &&& a.take(i) == b.take(i)
                }
        },
    decreases a.len(),
{
    if a.len() > 0 && b.len() > 0 && a[0] == b[0] {
        let x = a.drop_first();
        let y = b.drop_first();
        law_order_is_by_the_first_difference(x, y);
        if x.len() < y.len() && x == y.take(x.len() as int) {
            assert forall|i: int| 0 <= i < a.len() implies a[i] == b[i] by {
                if i > 0 {
                    assert(x[i - 1] == y.take(x.len() as int)[i - 1]);
                }
            }
            assert(a =~= b.take(a.len() as int));
        }
        if a.len() < b.len() && a == b.take(a.len() as int) {
            assert forall|i: int| 0 <= i < x.len() implies x[i] == y[i] by {
                assert(a[i + 1] == b.take(a.len() as int)[i + 1]);
            }
            assert(x =~= y.take(x.len() as int));
        }
        if exists|i: int|
            0 <= i < x.len() && i < y.len() && #[trigger] x[i] < y[i] && x.take(i) == y.take(i) {
            let i = choose|i: int|
                0 <= i < x.len() && i < y.len() && #[trigger] x[i] < y[i] && x.take(i) == y.take(i);
            assert(a[i + 1] < b[i + 1]);
            assert forall|j: int| 0 <= j < i + 1 implies a[j] == b[j] by {
                if j > 0 {
                    assert(x.take(i)[j - 1] == y.take(i)[j - 1]);
                }
            }
            assert(a.take(i + 1) =~= b.take(i + 1));
        }
        if exists|i: int|
            0 <= i < a.len() && i < b.len() && #[trigger] a[i] < b[i] && a.take(i) == b.take(i) {
            let i = choose|i: int|
                0 <= i < a.len() && i < b.len() && #[trigger] a[i] < b[i] && a.take(i) == b.take(i);
            assert(x[i - 1] < y[i - 1]);
            assert forall|j: int| 0 <= j < i - 1 implies x[j] == y[j] by {
                assert(a.take(i)[j + 1] == b.take(i)[j + 1]);
            }
            assert(x.take(i - 1) =~= y.take(i - 1));
        }
    } else if b.len() > 0 && a.len() > 0 {
        assert(a.take(0) =~= b.take(0));
        if a.len() < b.len() && a == b.take(a.len() as int) {
            assert(a[0] == b.take(a.len() as int)[0]);
        }
        if exists|i: int|
            0 <= i < a.len() && i < b.len() && #[trigger] a[i] < b[i] && a.take(i) == b.take(i) {
            let i = choose|i: int|
                0 <= i < a.len() && i < b.len() && #[trigger] a[i] < b[i] && a.take(i) == b.take(i);
            if i > 0 {
                assert(a.take(i)[0] == b.take(i)[0]);
            }
        }
        if a[0] < b[0] {
            assert(a.take(0) == b.take(0));
        }
    } else if b.len() > 0 {
        assert(a =~= b.take(0));
    }
}

/// The pieces of a split text, put together again with the separator between them, are the
/// text; and no piece holds the separator.
pub proof fn law_split_is_undone_by_joining(words: Seq<char>, separator: char)
    ensures
        crate::text::split(words, separator).len() > 0,
        crate::text::joined_by(crate::text::split(words, separator), seq![separator]) == words,
        forall|i: int|
            0 <= i < crate::text::split(words, separator).len() ==> !(
            #[trigger] crate::text::split(words, separator)[i]).contains(separator),
    decreases words.len(),
{
    let pieces = crate::text::split(words, separator);
    if words.len() == 0 {
        assert(pieces[0] =~= Seq::<char>::empty());
        assert(words =~= Seq::empty());
    } else {
        let front = words.drop_last();
        let before = crate::text::split(front, separator);
        law_split_is_undone_by_joining(front, separator);
        if words.last() == separator {
            assert(pieces.drop_last() =~= before);
            assert(front + seq![separator] + Seq::<char>::empty() =~= words);
        } else {
            let grown = before.last().push(words.last());
            assert(pieces.drop_last() =~= before.drop_last());
            if before.len() == 1 {
                assert(pieces[0] == grown);
                assert(before[0] == front);
                assert(grown =~= words);
            } else {
                let head = crate::text::joined_by(before.drop_last(), seq![separator]);
                assert(front == head + seq![separator] + before.last());
                let last = words.last();
                assert((head + seq![separator] + before.last()).push(last) =~= head
                    + seq![separator] + grown);
                assert(words =~= front.push(last));
            }
            assert(!grown.contains(separator)) by {
                if grown.contains(separator) {
                    let i = choose|i: int| 0 <= i < grown.len() && grown[i] == separator;
                    assert(before.last()[i] == separator);
                    assert(before[before.len() - 1].contains(separator));
                }
            }
            assert forall|i: int| 0 <= i < pieces.len() implies !(
            #[trigger] pieces[i]).contains(separator) by {
                if i < before.len() - 1 {
                    assert(pieces[i] == before[i]);
                }
            }
        }
    }
}

/// The digits of a number, read back, give the number: its last digit counts once, and those
/// before it ten times what they count by themselves.
pub proof fn law_digits_count_by_tens(row: Seq<char>, last: char)
    requires
        crate::text::digits_value(row) is Some,
        '0' <= last <= '9',
    ensures
        crate::text::digits_value(row.push(last)) == Some(
            (crate::text::digits_value(row)->0 * 10 + (last as int - '0' as int)) as nat,
        ),
        crate::text::digits_value(seq![last]) == Some((last as int - '0' as int) as nat),
{
    assert(row.push(last).drop_last() =~= row);
}

/// Only rows of decimal digits are numbers, each with at most one sign before it.
pub proof fn law_numbers_are_rows_of_digits(row: Seq<char>, max: nat)
    ensures
        crate::text::digits_value(row) is Some <==> row.len() > 0 && forall|i: int|
            0 <= i < row.len() ==> '0' <= #[trigger] row[i] <= '9',
        crate::text::number_value(row, max) is Some ==> crate::text::number_value(row, max)->0 <= max,
        crate::text::digits_value(row) is Some && crate::text::digits_value(row)->0 <= max
            ==> crate::text::number_value(row, max) == crate::text::digits_value(row)
            && crate::text::number_value(seq!['+'] + row, max) == crate::text::digits_value(row),
    decreases row.len(),
{
    if row.len() > 1 {
        law_numbers_are_rows_of_digits(row.drop_last(), max);
        if crate::text::digits_value(row) is Some {
            assert forall|i: int| 0 <= i < row.len() implies '0' <= #[trigger] row[i] <= '9' by {
                if i < row.len() - 1 {
                    assert(row.drop_last()[i] == row[i]);
                }
            }
        } else if forall|i: int| 0 <= i < row.len() ==> '0' <= #[trigger] row[i] <= '9' {
            assert(crate::text::is_digit(row[row.len() - 1]));
            assert forall|i: int| 0 <= i < row.drop_last().len() implies '0'
                <= #[trigger] row.drop_last()[i] <= '9' by {
                assert(row.drop_last()[i] == row[i]);
            }
        }
    }
    if crate::text::digits_value(row) is Some {
        assert('0' <= row[0] <= '9');
        assert((seq!['+'] + row).drop_first() =~= row);
    }
}

/// A number in decimal has no leading zero, and is read back as it was.
pub proof fn law_decimals_are_read_back(n: nat)
    ensures
        crate::text::digits_value(crate::text::decimal(n)) == Some(n),
        n > 0 ==> crate::text::decimal(n)[0] != '0',
    decreases n,
{
    if n < 10 {
        assert(crate::text::decimal(n) =~= seq![crate::text::digit(n)]);
    } else {
        law_decimals_are_read_back(n / 10);
        let high = crate::text::decimal(n / 10);
        assert(crate::text::decimal(n).drop_last() =~= high);
        assert(crate::text::decimal(n)[0] == high[0]);
    }
}

/// Only the capitals among the ASCII letters are changed, each to its small letter.
pub proof fn law_capitals_become_small(c: char)
    ensures
        'A' <= c <= 'Z' ==> crate::text::lower(c) as int == c as int - 'A' as int + 'a' as int,
        !('A' <= c <= 'Z') ==> crate::text::lower(c) == c,
{
}

/// The first place of a character is one where it stands, with no other before it.
pub proof fn law_first_place_is_the_first(words: Seq<char>, c: char)
    ensures
        ({
            let at = crate::text::first_index(words, c);
            &&& 0 <= at <= words.len()
            &&& at < words.len() ==> words[at] == c
            &&& forall|i: int| 0 <= i < at ==> #[trigger] words[i] != c
        }),
    decreases words.len(),
{
    if words.len() > 0 && words[0] != c {
        let rest = words.drop_first();
        law_first_place_is_the_first(rest, c);
        let at = crate::text::first_index(words, c);
        assert forall|i: int| 0 <= i < at implies #[trigger] words[i] != c by {
            if i > 0 {
                assert(rest[i - 1] == words[i]);
            }
        }
    }
}

} // verus!
