//! Text as a sequence of characters: digits, decimal numbers, and fields
//! between separators.

use vstd::prelude::*;
use vstd::slice::*;
use vstd::string::*;

verus! {

/// Whether `c` is one of the ASCII digits `0` to `9`.
pub open spec fn is_digit(c: char) -> bool {
    '0' <= c && c <= '9'
}

/// The number that the digit `c` stands for.
pub open spec fn digit_value(c: char) -> nat
    recommends
        is_digit(c),
{
    (c as int - '0' as int) as nat
}

/// Whether every character of the text is a digit.
pub open spec fn all_digits(text: Seq<char>) -> bool {
    forall|i: int| 0 <= i < text.len() ==> is_digit(#[trigger] text[i])
}

/// The number that a run of digits spells, most significant digit first.
pub open spec fn digits_value(digits: Seq<char>) -> nat
    decreases digits.len(),
{
    if digits.len() == 0 {
        0
    } else {
        10 * digits_value(digits.drop_last()) + digit_value(digits.last())
    }
}

/// A number written in the plain way: its decimal digits, without sign or
/// leading zeros.
pub open spec fn decimal_text(n: nat) -> Seq<char>
    decreases n,
{
    if n < 10 {
        seq![digit_char(n)]
    } else {
        decimal_text(n / 10).push(digit_char(n % 10))
    }
}

/// The character that stands for a digit.
pub open spec fn digit_char(digit: nat) -> char
    recommends
        digit < 10,
{
    (digit + 48) as u8 as char
}

/// The place of the first `c` in the text, or the text's length if there is
/// none.
pub open spec fn index_of(text: Seq<char>, c: char) -> int
    decreases text.len(),
{
    if text.len() == 0 || text[0] == c {
        0
    } else {
        1 + index_of(text.skip(1), c)
    }
}

/// The pieces into which the separators cut the text: one more than there are
/// separators, some of them possibly empty.
pub open spec fn fields(text: Seq<char>, sep: char) -> Seq<Seq<char>>
    decreases text.len(),
{
    let k = index_of(text, sep);
    if 0 <= k < text.len() {
        seq![text.take(k)] + fields(text.skip(k + 1), sep)
    } else {
        seq![text]
    }
}

/// The contents of a list of slices.
pub open spec fn views(parts: Seq<&[char]>) -> Seq<Seq<char>> {
    Seq::new(parts.len(), |i: int| parts[i]@)
}

/// A place is the first occurrence when nothing before it is `c` and it
/// either holds `c` or is the end of the text.
pub proof fn lemma_index_of(text: Seq<char>, c: char, k: int)
    requires
        0 <= k <= text.len(),
        forall|j: int| 0 <= j < k ==> text[j] != c,
        k < text.len() ==> text[k] == c,
    ensures
        index_of(text, c) == k,
    decreases text.len(),
{
    if k > 0 {
        lemma_index_of(text.skip(1), c, k - 1);
    }
}

/// The value of a run of digits is at least the value of each of its
/// beginnings.
pub proof fn lemma_digits_value_grows(digits: Seq<char>, n: int)
    requires
        0 <= n <= digits.len(),
    ensures
        digits_value(digits.take(n)) <= digits_value(digits),
    decreases digits.len() - n,
{
    if n == digits.len() {
        assert(digits.take(n) =~= digits);
    } else {
        lemma_digits_value_grows(digits, n + 1);
        assert(digits.take(n + 1).drop_last() =~= digits.take(n));
    }
}

/// The characters of a text, in order.
pub fn chars_of(text: &str) -> (chars: Vec<char>)
    ensures
        chars@ == text@,
{
    let mut chars: Vec<char> = Vec::new();
    for c in iter: text.chars()
        invariant
            chars@ == iter.seq().take(iter.index()),
            iter.seq() == text@,
    {
        chars.push(c);
    }
    chars
}

/// The first place at or after `from` that holds `c`, or the text's length.
pub fn find(text: &[char], from: usize, c: char) -> (place: usize)
    requires
        from <= text.len(),
    ensures
        from <= place <= text.len(),
        place - from == index_of(text@.skip(from as int), c),
{
    let mut place: usize = from;
    while place < text.len() && text[place] != c
        invariant
            from <= place <= text.len(),
            forall|j: int| from <= j < place ==> text@[j] != c,
        decreases text.len() - place,
    {
        place = place + 1;
    }
    proof {
        lemma_index_of(text@.skip(from as int), c, place - from);
    }
    place
}

/// Cuts a text at every `sep`.
pub fn split<'a>(text: &'a [char], sep: char) -> (parts: Vec<&'a [char]>)
    ensures
        views(parts@) == fields(text@, sep),
{
    let mut parts: Vec<&'a [char]> = Vec::new();
    let mut start: usize = 0;
    proof {
        assert(text@.skip(0) =~= text@);
    }
    loop
        invariant
            start <= text.len(),
            fields(text@, sep) == views(parts@) + fields(text@.skip(start as int), sep),
        decreases text.len() - start,
    {
        let end = find(text, start, sep);
        let ghost rest = text@.skip(start as int);
        parts.push(slice_subrange(text, start, end));
        proof {
            assert(rest.take(end - start) =~= text@.subrange(start as int, end as int));
        }
        if end == text.len() {
            return parts;
        }
        proof {
            assert(rest.skip(end - start + 1) =~= text@.skip(end + 1));
        }
        start = end + 1;
    }
}

} // verus!
