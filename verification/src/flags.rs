//! The two rewrites that the vocabulary readers apply to the values of the
//! `flag_values` and `flag_meanings` attributes.

use crate::text::{from_chars, to_chars};
use vstd::prelude::*;

verus! {

/// A list of flag values as it is rendered: every `b` and every space is
/// left out, and every comma is followed by one space.
pub open spec fn flag_values_text(text: Seq<char>) -> Seq<char>
    decreases text.len(),
{
    if text.len() == 0 {
        Seq::empty()
    } else {
        let before = flag_values_text(text.drop_last());
        let c = text.last();
        if c == 'b' || c == ' ' {
            before
        } else if c == ',' {
            before.push(',').push(' ')
        } else {
            before.push(c)
        }
    }
}

/// Rewrites a list of flag values such as `0b,1b, 2b` to `0, 1, 2`.
pub fn reformat_flag_values(flag_values: &str) -> (out: String)
    ensures
        out@ == flag_values_text(flag_values@),
{
    let chars = to_chars(flag_values);
    let mut kept: Vec<char> = Vec::new();
    let mut i: usize = 0;
    assert(chars@.take(0) =~= Seq::empty());
    while i < chars.len()
        invariant
            i <= chars.len(),
            kept@ == flag_values_text(chars@.take(i as int)),
        decreases chars.len() - i,
    {
        let c = chars[i];
        assert(chars@.take(i + 1).drop_last() =~= chars@.take(i as int));
        if c == 'b' || c == ' ' {
        } else if c == ',' {
            kept.push(',');
            kept.push(' ');
        } else {
            kept.push(c);
        }
        i = i + 1;
    }
    assert(chars@.take(i as int) =~= chars@);
    from_chars(&kept)
}

/// A text with every `|` turned into a space.
pub open spec fn bars_to_spaces(text: Seq<char>) -> Seq<char> {
    Seq::new(text.len(), |i: int| if text[i] == '|' { ' ' } else { text[i] })
}

/// A text in which, read from the left, every two spaces in a row have
/// become one. Two spaces that come out of four stay two: the text is read
/// once.
pub open spec fn pair_spaces(text: Seq<char>) -> Seq<char>
    decreases text.len(),
{
    if text.len() == 0 {
        Seq::empty()
    } else if text.len() >= 2 && text[0] == ' ' && text[1] == ' ' {
        seq![' '] + pair_spaces(text.skip(2))
    } else {
        seq![text[0]] + pair_spaces(text.skip(1))
    }
}

/// A list of flag meanings as it is rendered: bars become spaces, then pairs
/// of spaces become single spaces.
pub open spec fn flag_meanings_text(text: Seq<char>) -> Seq<char> {
    pair_spaces(bars_to_spaces(text))
}

/// Rewrites a list of flag meanings such as `good|bad| unknown` to
/// `good bad unknown`.
pub fn reformat_flag_meanings(flag_meanings: &str) -> (out: String)
    ensures
        out@ == flag_meanings_text(flag_meanings@),
{
    let chars = to_chars(flag_meanings);
    let mut spaced: Vec<char> = Vec::new();
    let mut i: usize = 0;
    while i < chars.len()
        invariant
            i <= chars.len(),
            spaced@ == bars_to_spaces(chars@).take(i as int),
        decreases chars.len() - i,
    {
        let c = chars[i];
        if c == '|' {
            spaced.push(' ');
        } else {
            spaced.push(c);
        }
        assert(spaced@ =~= bars_to_spaces(chars@).take(i + 1));
        i = i + 1;
    }
    assert(spaced@ =~= bars_to_spaces(chars@));
    let mut kept: Vec<char> = Vec::new();
    let mut j: usize = 0;
    assert(spaced@.skip(0) =~= spaced@);
    assert(kept@ + pair_spaces(spaced@.skip(0)) =~= pair_spaces(spaced@));
    while j < spaced.len()
        invariant
            j <= spaced.len(),
            kept@ + pair_spaces(spaced@.skip(j as int)) == pair_spaces(spaced@),
        decreases spaced.len() - j,
    {
        let ghost tail = spaced@.skip(j as int);
        let ghost so_far = kept@;
        assert(tail[0] == spaced@[j as int]);
        if spaced[j] == ' ' && j + 1 < spaced.len() && spaced[j + 1] == ' ' {
            assert(tail[1] == spaced@[j + 1]);
            assert(tail.skip(2) =~= spaced@.skip(j + 2));
            kept.push(' ');
            assert(kept@ + pair_spaces(spaced@.skip(j + 2)) =~= so_far + pair_spaces(tail));
            j = j + 2;
        } else {
            proof {
                if tail.len() >= 2 {
                    assert(tail[1] == spaced@[j + 1]);
                }
            }
            assert(tail.skip(1) =~= spaced@.skip(j + 1));
            kept.push(spaced[j]);
            assert(kept@ + pair_spaces(spaced@.skip(j + 1)) =~= so_far + pair_spaces(tail));
            j = j + 1;
        }
    }
    assert(kept@ + pair_spaces(spaced@.skip(j as int)) =~= kept@);
    from_chars(&kept)
}

} // verus!
