//! Text helpers over the characters of a string: equality, suffix test and
//! substring search, each stated over `Seq<char>`.

use vstd::prelude::*;

verus! {

/// `needle` stands in `hay` at position `at`.
pub open spec fn occurs_at(hay: Seq<char>, needle: Seq<char>, at: int) -> bool {
    &&& 0 <= at
    &&& at + needle.len() <= hay.len()
    &&& hay.subrange(at, at + needle.len()) == needle
}

/// `needle` stands somewhere in `hay`.
pub open spec fn contains(hay: Seq<char>, needle: Seq<char>) -> bool {
    exists|at: int| occurs_at(hay, needle, at)
}

/// `hay` ends with `suffix`.
pub open spec fn ends_with(hay: Seq<char>, suffix: Seq<char>) -> bool {
    occurs_at(hay, suffix, hay.len() - suffix.len())
}

/// The decimal digit `digit`, as one character.
pub open spec fn digit_text(digit: nat) -> Seq<char> {
    if digit == 0 {
        "0"@
    } else if digit == 1 {
        "1"@
    } else if digit == 2 {
        "2"@
    } else if digit == 3 {
        "3"@
    } else if digit == 4 {
        "4"@
    } else if digit == 5 {
        "5"@
    } else if digit == 6 {
        "6"@
    } else if digit == 7 {
        "7"@
    } else if digit == 8 {
        "8"@
    } else {
        "9"@
    }
}

/// A number in decimal, without leading zeros.
pub open spec fn decimal(number: nat) -> Seq<char>
    decreases number,
{
    if number < 10 {
        digit_text(number)
    } else {
        decimal(number / 10) + digit_text(number % 10)
    }
}

/// One decimal digit as a string.
fn digit_str(digit: u64) -> (text: &'static str)
    requires
        digit < 10,
    ensures
        text@ == digit_text(digit as nat),
{
    if digit == 0 {
        "0"
    } else if digit == 1 {
        "1"
    } else if digit == 2 {
        "2"
    } else if digit == 3 {
        "3"
    } else if digit == 4 {
        "4"
    } else if digit == 5 {
        "5"
    } else if digit == 6 {
        "6"
    } else if digit == 7 {
        "7"
    } else if digit == 8 {
        "8"
    } else {
        "9"
    }
}

/// A number written in decimal.
pub fn decimal_text(number: u64) -> (text: String)
    ensures
        text@ == decimal(number as nat),
    decreases number,
{
    if number < 10 {
        String::from_str(digit_str(number))
    } else {
        decimal_text(number / 10).concat(digit_str(number % 10))
    }
}

/// The pieces of a text between the occurrences of a separator, first to
/// last. A text without the separator is one piece; a separator at either end
/// has an empty piece beside it.
pub open spec fn split(text: Seq<char>, separator: char) -> Seq<Seq<char>>
    decreases text.len(),
{
    if text.len() == 0 {
        seq![Seq::empty()]
    } else {
        let before = split(text.drop_last(), separator);
        if text.last() == separator {
            before.push(Seq::empty())
        } else {
            before.drop_last().push(before.last().push(text.last()))
        }
    }
}

/// The views of a list of string slices.
pub open spec fn texts_of(pieces: Seq<&str>) -> Seq<Seq<char>> {
    pieces.map_values(|piece: &str| piece@)
}

/// The pieces put together again, with the separator between each two.
pub open spec fn join(pieces: Seq<Seq<char>>, separator: char) -> Seq<char>
    decreases pieces.len(),
{
    if pieces.len() == 0 {
        Seq::empty()
    } else if pieces.len() == 1 {
        pieces[0]
    } else {
        join(pieces.drop_last(), separator) + seq![separator] + pieces.last()
    }
}

/// Splitting loses nothing and leaves no separator behind: the pieces, put
/// together again with the separator, are the text, and the separator stands in
/// none of them.
pub proof fn lemma_split_joins(text: Seq<char>, separator: char)
    ensures
        split(text, separator).len() >= 1,
        join(split(text, separator), separator) == text,
        forall|i: int|
            0 <= i < split(text, separator).len() ==> !(#[trigger] split(text, separator)[i])
                .contains(separator),
    decreases text.len(),
{
    let pieces = split(text, separator);
    if text.len() == 0 {
        assert(join(pieces, separator) =~= text);
    } else {
        let shorter = text.drop_last();
        let before = split(shorter, separator);
        lemma_split_joins(shorter, separator);
        if text.last() == separator {
            assert(pieces.drop_last() =~= before);
            assert(join(pieces, separator) =~= text);
            assert forall|i: int| 0 <= i < pieces.len() implies !(#[trigger] pieces[i]).contains(
                separator,
            ) by {
                if i < before.len() {
                    assert(pieces[i] == before[i]);
                }
            }
        } else {
            let grown = before.last().push(text.last());
            assert(pieces.drop_last() =~= before.drop_last());
            if before.len() == 1 {
                assert(join(before, separator) == before[0]);
                assert(pieces.len() == 1);
                assert(pieces[0] == grown);
                assert(text =~= shorter.push(text.last()));
                assert(join(pieces, separator) =~= text);
            } else {
                assert(join(before, separator) == join(before.drop_last(), separator)
                    + seq![separator] + before.last());
                assert(pieces.len() == before.len());
                assert(pieces.last() == grown);
                assert(join(pieces, separator) == join(pieces.drop_last(), separator)
                    + seq![separator] + pieces.last());
                assert(text =~= shorter.push(text.last()));
                assert(join(pieces, separator) =~= text);
            }
            assert forall|i: int| 0 <= i < pieces.len() implies !(#[trigger] pieces[i]).contains(
                separator,
            ) by {
                if i < pieces.len() - 1 {
                    assert(pieces[i] == before[i]);
                } else {
                    assert(pieces[i] == grown);
                    assert(!before[before.len() - 1].contains(separator));
                    if grown.contains(separator) {
                        let k = choose|k: int| 0 <= k < grown.len() && grown[k] == separator;
                        if k < grown.len() - 1 {
                            assert(before.last()[k] == separator);
                            assert(before.last().contains(separator));
                        }
                    }
                }
            }
        }
    }
}

/// The characters of a string, in order.
pub fn chars_of(text: &str) -> (chars: Vec<char>)
    ensures
        chars@ == text@,
{
    let mut chars: Vec<char> = Vec::new();
    for c in it: text.chars()
        invariant
            chars@ == it.seq().take(it.index() as int),
            it.seq() == text@,
    {
        chars.push(c);
    }
    chars
}

/// Whether `needle` stands in `hay` at position `at`.
fn matches_at(hay: &Vec<char>, needle: &Vec<char>, at: usize) -> (found: bool)
    requires
        at + needle.len() <= hay.len(),
    ensures
        found == occurs_at(hay@, needle@, at as int),
{
    let mut k: usize = 0;
    while k < needle.len()
        invariant
            k <= needle.len(),
            at + needle.len() <= hay.len(),
            forall|j: int| 0 <= j < k ==> hay@[at + j] == needle@[j],
        decreases needle.len() - k,
    {
        if hay[at + k] != needle[k] {
            assert(hay@.subrange(at as int, at + needle.len())[k as int] != needle@[k as int]);
            return false;
        }
        k += 1;
    }
    assert(hay@.subrange(at as int, at + needle.len()) =~= needle@);
    true
}

/// Whether two strings hold the same characters.
pub fn same_text(left: &str, right: &str) -> (same: bool)
    ensures
        same == (left@ == right@),
{
    let left_chars = chars_of(left);
    let right_chars = chars_of(right);
    if left_chars.len() != right_chars.len() {
        return false;
    }
    let same = matches_at(&left_chars, &right_chars, 0);
    assert(left@.subrange(0, left@.len() as int) =~= left@);
    same
}

/// Whether `hay` ends with `suffix`.
pub fn text_ends_with(hay: &str, suffix: &str) -> (found: bool)
    ensures
        found == ends_with(hay@, suffix@),
{
    let hay_chars = chars_of(hay);
    let suffix_chars = chars_of(suffix);
    if suffix_chars.len() > hay_chars.len() {
        return false;
    }
    matches_at(&hay_chars, &suffix_chars, hay_chars.len() - suffix_chars.len())
}

/// Splits a text at every occurrence of a separator.
pub fn split_on<'a>(text: &'a str, separator: char) -> (pieces: Vec<&'a str>)
    ensures
        texts_of(pieces@) == split(text@, separator),
{
    let chars = chars_of(text);
    let mut pieces: Vec<&'a str> = Vec::new();
    let mut start: usize = 0;
    let mut at: usize = 0;
    proof {
        assert(text@.take(0) =~= Seq::<char>::empty());
        assert(text@.subrange(0, 0) =~= Seq::<char>::empty());
        assert(texts_of(pieces@).push(text@.subrange(0, 0)) =~= seq![Seq::<char>::empty()]);
    }
    while at < chars.len()
        invariant
            start <= at <= chars.len(),
            chars@ == text@,
            texts_of(pieces@).push(text@.subrange(start as int, at as int)) == split(
                text@.take(at as int),
                separator,
            ),
        decreases chars.len() - at,
    {
        let ghost before = split(text@.take(at as int), separator);
        proof {
            let next = text@.take(at + 1);
            assert(next.drop_last() =~= text@.take(at as int));
            assert(next.last() == text@[at as int]);
        }
        if chars[at] == separator {
            let piece = text.substring_char(start, at);
            pieces.push(piece);
            proof {
                assert(texts_of(pieces@) =~= before);
                assert(text@.subrange(at + 1, at + 1) =~= Seq::<char>::empty());
            }
            start = at + 1;
        } else {
            proof {
                assert(before.drop_last() =~= texts_of(pieces@));
                assert(before.last().push(text@[at as int]) =~= text@.subrange(
                    start as int,
                    at + 1,
                ));
            }
        }
        at += 1;
    }
    let last = text.substring_char(start, at);
    proof {
        assert(text@.take(at as int) =~= text@);
    }
    let ghost done = texts_of(pieces@).push(last@);
    pieces.push(last);
    proof {
        assert(texts_of(pieces@) =~= done);
    }
    pieces
}

/// Whether `needle` stands somewhere in `hay`. The empty string stands in
/// every string.
pub fn text_contains(hay: &str, needle: &str) -> (found: bool)
    ensures
        found == contains(hay@, needle@),
{
    let hay_chars = chars_of(hay);
    let needle_chars = chars_of(needle);
    if needle_chars.len() > hay_chars.len() {
        return false;
    }
    let last: usize = hay_chars.len() - needle_chars.len();
    let mut at: usize = 0;
    loop
        invariant
            at <= last,
            last == hay_chars.len() - needle_chars.len(),
            needle_chars.len() <= hay_chars.len(),
            hay_chars@ == hay@,
            needle_chars@ == needle@,
            forall|j: int| 0 <= j < at ==> !occurs_at(hay@, needle@, j),
        decreases last - at,
    {
        if matches_at(&hay_chars, &needle_chars, at) {
            return true;
        }
        if at == last {
            return false;
        }
        at += 1;
    }
}

} // verus!
