//! Cutting the text of a tab-separated table into lines, blocks and fields.

use vstd::prelude::*;

verus! {

/// The texts of a list of character vectors.
pub open spec fn texts(rows: Seq<Vec<char>>) -> Seq<Seq<char>> {
    rows.map_values(|row: Vec<char>| row@)
}

/// The pieces of `text` between the occurrences of `separator`. There is one
/// piece more than there are separators, so an empty text has one empty
/// piece.
pub open spec fn split_char(text: Seq<char>, separator: char) -> Seq<Seq<char>>
    decreases text.len(),
{
    if text.len() == 0 {
        seq![Seq::empty()]
    } else {
        let before = split_char(text.drop_last(), separator);
        if text.last() == separator {
            before.push(Seq::empty())
        } else {
            before.drop_last().push(before.last().push(text.last()))
        }
    }
}

/// Cuts `text` at every `separator`.
pub fn split_at(text: &Vec<char>, separator: char) -> (pieces: Vec<Vec<char>>)
    ensures
        texts(pieces@) == split_char(text@, separator),
        pieces.len() >= 1,
{
    let mut done: Vec<Vec<char>> = Vec::new();
    let mut current: Vec<char> = Vec::new();
    let mut i: usize = 0;
    assert(text@.take(0) =~= Seq::empty());
    assert(texts(done@).push(current@) =~= split_char(text@.take(0), separator));
    while i < text.len()
        invariant
            i <= text.len(),
            texts(done@).push(current@) == split_char(text@.take(i as int), separator),
        decreases text.len() - i,
    {
        let ghost before = split_char(text@.take(i as int), separator);
        let ghost finished = texts(done@);
        let ghost open = current@;
        assert(text@.take(i + 1).drop_last() =~= text@.take(i as int));
        assert(before.last() == open);
        assert(before.drop_last() =~= finished);
        let c = text[i];
        if c == separator {
            done.push(current);
            current = Vec::new();
            assert(texts(done@) =~= finished.push(open));
        } else {
            current.push(c);
        }
        i = i + 1;
    }
    assert(text@.take(i as int) =~= text@);
    let ghost finished = texts(done@);
    done.push(current);
    assert(texts(done@) =~= finished.push(current@));
    done
}

/// Copies the characters of `text` from position `from` up to `to`.
pub fn copy_range(text: &Vec<char>, from: usize, to: usize) -> (part: Vec<char>)
    requires
        from <= to <= text.len(),
    ensures
        part@ == text@.subrange(from as int, to as int),
{
    let mut part: Vec<char> = Vec::new();
    let mut i: usize = from;
    while i < to
        invariant
            from <= i <= to,
            to <= text.len(),
            part@ == text@.subrange(from as int, i as int),
        decreases to - i,
    {
        part.push(text[i]);
        assert(part@ =~= text@.subrange(from as int, i + 1));
        i = i + 1;
    }
    part
}

/// A line without the carriage return that may close it.
pub open spec fn without_return(line: Seq<char>) -> Seq<char> {
    if line.len() > 0 && line.last() == '\r' {
        line.drop_last()
    } else {
        line
    }
}

/// The lines of `text`. A line ends with a line feed, or with a carriage
/// return and a line feed; neither is part of the line. What stands behind
/// the last line feed is a line too, unless it is empty.
pub open spec fn lines(text: Seq<char>) -> Seq<Seq<char>> {
    let pieces = split_char(text, '\n');
    let ended = pieces.drop_last().map_values(|piece: Seq<char>| without_return(piece));
    if pieces.last().len() == 0 {
        ended
    } else {
        ended.push(pieces.last())
    }
}

/// Cuts `text` into its lines.
pub fn split_lines(text: &Vec<char>) -> (out: Vec<Vec<char>>)
    ensures
        texts(out@) == lines(text@),
{
    let pieces = split_at(text, '\n');
    let ghost all = split_char(text@, '\n');
    let ghost ended = all.drop_last().map_values(|piece: Seq<char>| without_return(piece));
    let mut out: Vec<Vec<char>> = Vec::new();
    let mut i: usize = 0;
    let last = pieces.len() - 1;
    assert(texts(out@) =~= ended.take(0));
    while i < last
        invariant
            i <= last,
            last == pieces.len() - 1,
            texts(pieces@) == all,
            ended == all.drop_last().map_values(|piece: Seq<char>| without_return(piece)),
            texts(out@) == ended.take(i as int),
        decreases last - i,
    {
        let piece = &pieces[i];
        assert(piece@ == all[i as int]);
        let n = piece.len();
        let ghost so_far = texts(out@);
        let line = if n > 0 && piece[n - 1] == '\r' {
            copy_range(piece, 0, n - 1)
        } else {
            copy_range(piece, 0, n)
        };
        assert(line@ =~= without_return(piece@));
        out.push(line);
        assert(texts(out@) =~= so_far.push(line@));
        assert(texts(out@) =~= ended.take(i + 1));
        i = i + 1;
    }
    assert(ended.take(i as int) =~= ended);
    let tail = &pieces[last];
    assert(tail@ == all.last());
    if tail.len() > 0 {
        let ghost so_far = texts(out@);
        let line = copy_range(tail, 0, tail.len());
        assert(line@ =~= tail@);
        out.push(line);
        assert(texts(out@) =~= so_far.push(line@));
    }
    out
}

/// The lines behind the first one, which holds the column titles.
pub open spec fn below_titles(rows: Seq<Seq<char>>) -> Seq<Seq<char>> {
    if rows.len() == 0 {
        rows
    } else {
        rows.skip(1)
    }
}

/// The lines joined by single line feeds.
pub open spec fn join_lines(rows: Seq<Seq<char>>) -> Seq<char>
    decreases rows.len(),
{
    if rows.len() == 0 {
        Seq::empty()
    } else if rows.len() == 1 {
        rows[0]
    } else {
        join_lines(rows.drop_last()).push('\n') + rows.last()
    }
}

fn append_chars(to: &mut Vec<char>, from: &Vec<char>)
    ensures
        final(to)@ == old(to)@ + from@,
{
    let ghost start = to@;
    let mut i: usize = 0;
    assert(start + from@.take(0) =~= start);
    while i < from.len()
        invariant
            i <= from.len(),
            to@ == start + from@.take(i as int),
        decreases from.len() - i,
    {
        to.push(from[i]);
        assert(to@ =~= start + from@.take(i + 1));
        i = i + 1;
    }
    assert(from@.take(i as int) =~= from@);
}

/// Joins the lines behind the title line by line feeds.
pub fn join_below_titles(rows: &Vec<Vec<char>>) -> (out: Vec<char>)
    ensures
        out@ == join_lines(below_titles(texts(rows@))),
{
    let mut out: Vec<char> = Vec::new();
    if rows.len() == 0 {
        return out;
    }
    let ghost below = below_titles(texts(rows@));
    let mut i: usize = 1;
    assert(below.take(0) =~= Seq::empty());
    while i < rows.len()
        invariant
            1 <= i <= rows.len(),
            below == below_titles(texts(rows@)),
            out@ == join_lines(below.take(i - 1)),
        decreases rows.len() - i,
    {
        let ghost upto = below.take(i as int);
        assert(upto.drop_last() =~= below.take(i - 1));
        assert(upto.last() == rows[i as int]@);
        if i > 1 {
            out.push('\n');
        }
        append_chars(&mut out, &rows[i]);
        assert(out@ =~= join_lines(upto));
        i = i + 1;
    }
    assert(below.take(i - 1) =~= below);
    out
}

/// The pieces with `opening` put before the first of them.
pub open spec fn continue_first(opening: Seq<char>, pieces: Seq<Seq<char>>) -> Seq<Seq<char>> {
    seq![opening + pieces[0]] + pieces.skip(1)
}

/// The blocks of `text`: the pieces between empty lines, that is between
/// pairs of line feeds, found from the left. Of three line feeds in a row
/// the first two end a block, and the third opens the next.
pub open spec fn split_blocks(text: Seq<char>) -> Seq<Seq<char>>
    decreases text.len(),
{
    if text.len() == 0 {
        seq![Seq::empty()]
    } else if text.len() >= 2 && text[0] == '\n' && text[1] == '\n' {
        seq![Seq::empty()] + split_blocks(text.skip(2))
    } else {
        continue_first(seq![text[0]], split_blocks(text.skip(1)))
    }
}

/// A text has at least one block.
pub proof fn lemma_split_blocks_has_pieces(text: Seq<char>)
    ensures
        split_blocks(text).len() >= 1,
    decreases text.len(),
{
    if text.len() == 0 {
    } else if text.len() >= 2 && text[0] == '\n' && text[1] == '\n' {
        lemma_split_blocks_has_pieces(text.skip(2));
    } else {
        lemma_split_blocks_has_pieces(text.skip(1));
    }
}

/// Cuts `text` into its blocks.
pub fn cut_blocks(text: &Vec<char>) -> (blocks: Vec<Vec<char>>)
    ensures
        texts(blocks@) == split_blocks(text@),
{
    let mut done: Vec<Vec<char>> = Vec::new();
    let mut current: Vec<char> = Vec::new();
    let mut i: usize = 0;
    proof {
        lemma_split_blocks_has_pieces(text@);
        assert(text@.skip(0) =~= text@);
        assert(texts(done@) + continue_first(current@, split_blocks(text@.skip(0)))
            =~= split_blocks(text@));
    }
    while i < text.len()
        invariant
            i <= text.len(),
            texts(done@) + continue_first(current@, split_blocks(text@.skip(i as int)))
                == split_blocks(text@),
        decreases text.len() - i,
    {
        let ghost tail = text@.skip(i as int);
        let ghost finished = texts(done@);
        let ghost open = current@;
        assert(tail[0] == text@[i as int]);
        if text[i] == '\n' && i + 1 < text.len() && text[i + 1] == '\n' {
            proof {
                assert(tail[1] == text@[i + 1]);
                assert(tail.skip(2) =~= text@.skip(i + 2));
                lemma_split_blocks_has_pieces(tail.skip(2));
            }
            done.push(current);
            current = Vec::new();
            proof {
                let next = split_blocks(tail.skip(2));
                assert(texts(done@) =~= finished.push(open));
                assert(open + Seq::<char>::empty() =~= open);
                assert(continue_first(Seq::empty(), next) =~= next);
                assert(texts(done@) + continue_first(current@, next) =~= finished
                    + continue_first(open, split_blocks(tail)));
            }
            i = i + 2;
        } else {
            proof {
                if tail.len() >= 2 {
                    assert(tail[1] == text@[i + 1]);
                }
                assert(tail.skip(1) =~= text@.skip(i + 1));
                lemma_split_blocks_has_pieces(tail.skip(1));
            }
            current.push(text[i]);
            proof {
                let next = split_blocks(tail.skip(1));
                assert(open.push(tail[0]) + next[0] =~= open + (seq![tail[0]] + next[0]));
                assert(continue_first(current@, next) =~= continue_first(
                    open,
                    split_blocks(tail),
                ));
            }
            i = i + 1;
        }
    }
    proof {
        assert(text@.skip(i as int) =~= Seq::empty());
        assert(current@ + Seq::<char>::empty() =~= current@);
        assert(continue_first(current@, split_blocks(Seq::empty())) =~= seq![current@]);
    }
    let ghost finished = texts(done@);
    done.push(current);
    assert(texts(done@) =~= finished + seq![current@]);
    done
}

} // verus!
