//! Text helpers shared by the derivation rules and the statement templates.

use vstd::prelude::*;
use vstd::string::StringExecFns;

verus! {

/// The parts written one after another with `sep` between neighbours:
/// nothing before the first part and nothing after the last.
pub open spec fn join(parts: Seq<Seq<char>>, sep: Seq<char>) -> Seq<char>
    decreases parts.len(),
{
    if parts.len() == 0 {
        Seq::empty()
    } else if parts.len() == 1 {
        parts[0]
    } else {
        join(parts.drop_last(), sep) + sep + parts.last()
    }
}

/// Where part `i` starts inside `join(parts, sep)`: behind every earlier part
/// and the separator that follows it.
pub open spec fn offset_of(parts: Seq<Seq<char>>, sep: Seq<char>, i: int) -> int
    decreases i,
{
    if i <= 0 {
        0
    } else {
        offset_of(parts, sep, i - 1) + parts[i - 1].len() + sep.len()
    }
}

/// Whether the text equals the given word.
pub fn text_is(text: &String, word: &str) -> (same: bool)
    ensures
        same == (text@ == word@),
{
    let other = String::from_str(word);
    *text == other
}

/// Writes the parts one after another with `sep` between neighbours.
pub fn join_with(parts: &Vec<String>, sep: &str) -> (out: String)
    ensures
        out@ == join(parts.deep_view(), sep@),
{
    let mut out = String::new();
    let mut i: usize = 0;
    while i < parts.len()
        invariant
            i <= parts.len(),
            out@ == join(parts.deep_view().take(i as int), sep@),
        decreases parts.len() - i,
    {
        if i > 0 {
            out.append(sep);
        }
        out.append(parts[i].as_str());
        proof {
            let all = parts.deep_view();
            let next = all.take(i + 1);
            assert(next.drop_last() =~= all.take(i as int));
            assert(next.last() == parts[i as int]@);
            if i == 0 {
                assert(out@ =~= next[0]);
            }
        }
        i += 1;
    }
    proof {
        assert(parts.deep_view().take(parts.len() as int) =~= parts.deep_view());
    }
    out
}

/// The length of a joined text: every part and one separator between each
/// two neighbours.
pub proof fn lemma_join_covers(parts: Seq<Seq<char>>, sep: Seq<char>)
    requires
        parts.len() > 0,
    ensures
        join(parts, sep).len() == offset_of(parts, sep, parts.len() - 1) + parts.last().len(),
    decreases parts.len(),
{
    if parts.len() > 1 {
        let front = parts.drop_last();
        lemma_join_covers(front, sep);
        lemma_offset_of_prefix(parts, front, sep, parts.len() - 2);
    }
}

/// An offset depends only on the parts before it.
pub proof fn lemma_offset_of_prefix(
    parts: Seq<Seq<char>>,
    front: Seq<Seq<char>>,
    sep: Seq<char>,
    i: int,
)
    requires
        0 <= i <= front.len() <= parts.len(),
        forall|k: int| 0 <= k < front.len() ==> front[k] == parts[k],
    ensures
        offset_of(front, sep, i) == offset_of(parts, sep, i),
    decreases i,
{
    if i > 0 {
        lemma_offset_of_prefix(parts, front, sep, i - 1);
    }
}

/// Joining keeps every part, whole and in input order: part `i` stands at
/// its offset, offsets grow with `i`, and equal parts each keep their own
/// place.
pub proof fn lemma_join_preserves_order(parts: Seq<Seq<char>>, sep: Seq<char>, i: int)
    requires
        0 <= i < parts.len(),
    ensures
        0 <= offset_of(parts, sep, i),
        offset_of(parts, sep, i) + parts[i].len() <= join(parts, sep).len(),
        join(parts, sep).subrange(
            offset_of(parts, sep, i),
            offset_of(parts, sep, i) + parts[i].len(),
        ) == parts[i],
        i + 1 < parts.len() ==> offset_of(parts, sep, i) + parts[i].len() + sep.len()
            == offset_of(parts, sep, i + 1),
    decreases parts.len(),
{
    lemma_offset_of_bounds(parts, sep, i);
    lemma_join_covers(parts, sep);
    if parts.len() == 1 {
        assert(join(parts, sep).subrange(0, parts[0].len() as int) =~= parts[0]);
    } else {
        let front = parts.drop_last();
        let whole = join(parts, sep);
        lemma_join_covers(front, sep);
        lemma_offset_of_prefix(parts, front, sep, parts.len() - 2);
        if i == parts.len() - 1 {
            assert(whole.subrange(offset_of(parts, sep, i), offset_of(parts, sep, i) + parts[i].len())
                =~= parts[i]);
        } else {
            lemma_join_preserves_order(front, sep, i);
            lemma_offset_of_prefix(parts, front, sep, i);
            let start = offset_of(parts, sep, i);
            assert(whole.subrange(start, start + parts[i].len()) =~= join(front, sep).subrange(
                start,
                start + front[i].len(),
            ));
        }
    }
}

/// Offsets are never negative.
pub proof fn lemma_offset_of_bounds(parts: Seq<Seq<char>>, sep: Seq<char>, i: int)
    ensures
        0 <= offset_of(parts, sep, i),
    decreases i,
{
    if i > 0 {
        lemma_offset_of_bounds(parts, sep, i - 1);
    }
}

} // verus!
