//! What the operator typed, as the migration takes it.

use vstd::prelude::*;

verus! {

/// The characters of white space: the space, the controls from tab to
/// carriage return, the next-line control, the no-break spaces, the spaces
/// of fixed width, the two separators of lines and paragraphs, and the
/// ideographic space.
pub open spec fn white_space(c: char) -> bool {
    ||| '\u{9}' <= c <= '\u{d}'
    ||| c == ' '
    ||| c == '\u{85}'
    ||| c == '\u{a0}'
    ||| c == '\u{1680}'
    ||| '\u{2000}' <= c <= '\u{200a}'
    ||| c == '\u{2028}'
    ||| c == '\u{2029}'
    ||| c == '\u{202f}'
    ||| c == '\u{205f}'
    ||| c == '\u{3000}'
}

/// Whether a character is white space.
pub fn is_white_space(c: char) -> (r: bool)
    ensures
        r == white_space(c),
{
    ('\u{9}' <= c && c <= '\u{d}') || c == ' ' || c == '\u{85}' || c == '\u{a0}' || c == '\u{1680}' || (
    '\u{2000}' <= c && c <= '\u{200a}') || c == '\u{2028}' || c == '\u{2029}' || c == '\u{202f}' || c
        == '\u{205f}' || c == '\u{3000}'
}

/// The characters of a text.
pub fn characters(text: &str) -> (chars: Vec<char>)
    ensures
        chars@ == text@,
{
    let mut chars: Vec<char> = Vec::new();
    for c in it: text.chars()
        invariant
            it.seq() == text@,
            chars@ == text@.take(it.index()),
    {
        chars.push(c);
        assert(chars@ =~= text@.take(it.index() + 1));
    }
    assert(chars@ =~= text@);
    chars
}

/// How many characters of white space a line begins with.
pub open spec fn leading_white_space(line: Seq<char>) -> nat
    decreases line.len(),
{
    if line.len() > 0 && white_space(line[0]) {
        1 + leading_white_space(line.drop_first())
    } else {
        0
    }
}

/// How many characters of white space a line ends with.
pub open spec fn trailing_white_space(line: Seq<char>) -> nat
    decreases line.len(),
{
    if line.len() > 0 && white_space(line.last()) {
        1 + trailing_white_space(line.drop_last())
    } else {
        0
    }
}

/// A line without the white space that it begins and ends with.
pub open spec fn trimmed(line: Seq<char>) -> Seq<char> {
    let rest = line.skip(leading_white_space(line) as int);
    rest.take(rest.len() - trailing_white_space(rest))
}

/// A line that begins with `count` characters of white space begins with
/// as many more as what follows them begins with.
proof fn lemma_leading_skip(line: Seq<char>, count: int)
    requires
        0 <= count <= line.len(),
        forall|k: int| 0 <= k < count ==> white_space(#[trigger] line[k]),
    ensures
        leading_white_space(line) == count + leading_white_space(line.skip(count)),
    decreases count,
{
    if count == 0 {
        assert(line.skip(0) =~= line);
    } else {
        let rest = line.drop_first();
        assert forall|k: int| 0 <= k < count - 1 implies white_space(#[trigger] rest[k]) by {
            assert(rest[k] == line[k + 1]);
        }
        lemma_leading_skip(rest, count - 1);
        assert(rest.skip(count - 1) =~= line.skip(count));
    }
}

/// A line that ends with `count` characters of white space ends with as
/// many more as what stands before them ends with.
proof fn lemma_trailing_take(line: Seq<char>, count: int)
    requires
        0 <= count <= line.len(),
        forall|k: int| line.len() - count <= k < line.len() ==> white_space(#[trigger] line[k]),
    ensures
        trailing_white_space(line) == count + trailing_white_space(line.take(line.len() - count)),
    decreases count,
{
    if count == 0 {
        assert(line.take(line.len() as int) =~= line);
    } else {
        let rest = line.drop_last();
        assert forall|k: int| rest.len() - (count - 1) <= k < rest.len() implies white_space(
            #[trigger] rest[k],
        ) by {
            assert(rest[k] == line[k]);
        }
        lemma_trailing_take(rest, count - 1);
        assert(rest.take(rest.len() - (count - 1)) =~= line.take(line.len() - count));
    }
}

/// The answer that a typed line gives: the line without the white space
/// around it.
pub fn answer(line: &str) -> (text: String)
    ensures
        text@ == trimmed(line@),
{
    let chars = characters(line);
    let length = chars.len();
    let mut from: usize = 0;
    while from < length && is_white_space(chars[from])
        invariant
            from <= length,
            length == line@.len(),
            chars@ == line@,
            forall|k: int| 0 <= k < from ==> white_space(#[trigger] line@[k]),
        decreases length - from,
    {
        from += 1;
    }
    let ghost rest = line@.skip(from as int);
    proof {
        lemma_leading_skip(line@, from as int);
        assert(leading_white_space(rest) == 0) by {
            if from < length {
                assert(rest[0] == line@[from as int]);
            }
        }
    }
    let mut to: usize = length;
    while to > from && is_white_space(chars[to - 1])
        invariant
            from <= to <= length,
            length == line@.len(),
            chars@ == line@,
            rest == line@.skip(from as int),
            forall|k: int| to - from <= k < rest.len() ==> white_space(#[trigger] rest[k]),
        decreases to,
    {
        proof {
            assert(rest[to - 1 - from] == line@[to - 1]);
        }
        to -= 1;
    }
    proof {
        lemma_trailing_take(rest, length - to);
        let kept = rest.take(rest.len() - (length - to));
        assert(trailing_white_space(kept) == 0) by {
            if to > from {
                assert(kept.last() == line@[to - 1]);
            }
        }
        assert(kept =~= line@.subrange(from as int, to as int));
    }
    line.substring_char(from, to).to_string()
}

/// What is left of a line neither begins nor ends with white space.
pub proof fn lemma_trimmed_is_bare(line: Seq<char>)
    ensures
        leading_white_space(trimmed(line)) == 0,
        trailing_white_space(trimmed(line)) == 0,
{
    let rest = line.skip(leading_white_space(line) as int);
    lemma_leading_is_exact(line);
    lemma_trailing_is_exact(rest);
    let kept = trimmed(line);
    if kept.len() > 0 {
        assert(kept[0] == rest[0]);
        assert(rest[0] == line[leading_white_space(line) as int]);
        assert(kept.last() == rest[rest.len() - trailing_white_space(rest) - 1]);
    }
}

/// The count of leading white space stops at a character that is none.
proof fn lemma_leading_is_exact(line: Seq<char>)
    ensures
        leading_white_space(line) <= line.len(),
        leading_white_space(line) < line.len() ==> !white_space(line[leading_white_space(line) as int]),
    decreases line.len(),
{
    if line.len() > 0 && white_space(line[0]) {
        lemma_leading_is_exact(line.drop_first());
        let rest = line.drop_first();
        if leading_white_space(rest) < rest.len() {
            assert(rest[leading_white_space(rest) as int] == line[leading_white_space(line) as int]);
        }
    }
}

/// The count of trailing white space stops at a character that is none.
proof fn lemma_trailing_is_exact(line: Seq<char>)
    ensures
        trailing_white_space(line) <= line.len(),
        trailing_white_space(line) < line.len() ==> !white_space(
            line[line.len() - trailing_white_space(line) - 1],
        ),
    decreases line.len(),
{
    if line.len() > 0 && white_space(line.last()) {
        lemma_trailing_is_exact(line.drop_last());
        let rest = line.drop_last();
        if trailing_white_space(rest) < rest.len() {
            assert(rest[rest.len() - trailing_white_space(rest) - 1] == line[line.len()
                - trailing_white_space(line) - 1]);
        }
    }
}

/// To trim what is trimmed changes nothing.
pub proof fn lemma_trimmed_is_idempotent(line: Seq<char>)
    ensures
        trimmed(trimmed(line)) == trimmed(line),
{
    lemma_trimmed_is_bare(line);
    let kept = trimmed(line);
    assert(kept.skip(0) =~= kept);
    assert(kept.take(kept.len() as int) =~= kept);
}

} // verus!
