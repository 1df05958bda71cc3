//! The trace file's framing: one event per line, each line ended by a line feed.

use vstd::prelude::*;

verus! {

/// The line that carries `text`.
pub open spec fn framed(text: Seq<char>) -> Seq<char> {
    text.push('\n')
}

/// `text` fits on one line.
pub open spec fn single_line(text: Seq<char>) -> bool {
    !text.contains('\n')
}

/// The contents of a file to which the lines of `texts` were appended in turn.
pub open spec fn appended(texts: Seq<Seq<char>>) -> Seq<char>
    decreases texts.len(),
{
    if texts.len() == 0 {
        Seq::empty()
    } else {
        framed(texts.first()) + appended(texts.drop_first())
    }
}

/// The position of the first line feed in `content`, or its length where there is none.
pub open spec fn line_end(content: Seq<char>) -> int
    decreases content.len(),
{
    if content.len() == 0 {
        0
    } else if content.first() == '\n' {
        0
    } else {
        1 + line_end(content.drop_first())
    }
}

/// The lines that a reader finds in `content`: its pieces between line feeds, where a line feed at
/// the very end starts no further line.
pub open spec fn lines(content: Seq<char>) -> Seq<Seq<char>>
    decreases content.len(),
{
    if content.len() == 0 {
        Seq::empty()
    } else {
        let end = line_end(content);
        if 0 <= end < content.len() {
            seq![content.take(end)] + lines(content.skip(end + 1))
        } else {
            seq![content]
        }
    }
}

/// Ends `text` with a line feed.
pub fn frame(text: String) -> (line: String)
    ensures
        line@ == framed(text@),
        line@ == text@ + seq!['\n'],
{
    let mut line: String = text;
    line.append("\n");
    proof {
        reveal_strlit("\n");
        assert(text@ + "\n"@ =~= text@.push('\n'));
    }
    line
}

/// The first line feed of `framed(text) + rest` is the one that ends the line.
proof fn lemma_line_end(text: Seq<char>, rest: Seq<char>)
    requires
        single_line(text),
    ensures
        line_end(framed(text) + rest) == text.len(),
    decreases text.len(),
{
    let content = framed(text) + rest;
    if text.len() == 0 {
        assert(content.first() == '\n');
    } else {
        assert(content.first() == text[0]);
        assert(text.contains(text[0]));
        let tail = text.drop_first();
        assert forall|i: int| 0 <= i < tail.len() implies tail[i] != '\n' by {
            assert(text.contains(text[i + 1]));
        }
        lemma_line_end(tail, rest);
        assert(content.drop_first() =~= framed(tail) + rest);
    }
}

/// A line is the text it carries, character for character, and one line feed behind it.
pub proof fn law_line_carries_text(text: Seq<char>)
    ensures
        framed(text) == text + seq!['\n'],
        framed(text).len() == text.len() + 1,
        forall|i: int| 0 <= i < text.len() ==> #[trigger] framed(text)[i] == text[i],
        framed(text)[text.len() as int] == '\n',
{
}

/// Different texts are carried by different lines.
pub proof fn law_lines_differ(text: Seq<char>, other: Seq<char>)
    requires
        framed(text) == framed(other),
    ensures
        text == other,
{
    assert(framed(text).drop_last() =~= text);
    assert(framed(other).drop_last() =~= other);
}

/// A text fits on one line exactly where none of its characters is a line feed.
pub proof fn law_single_line_has_no_feed(text: Seq<char>)
    ensures
        single_line(text) <==> (forall|i: int| 0 <= i < text.len() ==> #[trigger] text[i] != '\n'),
{
    if !single_line(text) {
        let at = choose|i: int| 0 <= i < text.len() && text[i] == '\n';
        assert(text[at] == '\n');
    } else {
        assert forall|i: int| 0 <= i < text.len() implies #[trigger] text[i] != '\n' by {
            assert(text.contains(text[i]));
        }
    }
}

/// A line holds one line feed, which is its last character.
pub proof fn law_line_has_one_feed(text: Seq<char>)
    requires
        single_line(text),
    ensures
        framed(text).last() == '\n',
        forall|i: int|
            0 <= i < framed(text).len() ==> (#[trigger] framed(text)[i] == '\n' <==> i
                == text.len()),
{
    assert forall|i: int| 0 <= i < framed(text).len() implies (#[trigger] framed(text)[i] == '\n'
        <==> i == text.len()) by {
        if i < text.len() {
            assert(text.contains(text[i]));
        }
    }
}

/// Reading a file line by line gives back the texts that were appended to it, in order.
pub proof fn law_lines_read_back(texts: Seq<Seq<char>>)
    requires
        forall|i: int| 0 <= i < texts.len() ==> single_line(#[trigger] texts[i]),
    ensures
        lines(appended(texts)) == texts,
    decreases texts.len(),
{
    if texts.len() > 0 {
        let first = texts.first();
        let others = texts.drop_first();
        let rest = appended(others);
        let content = framed(first) + rest;
        assert forall|i: int| 0 <= i < others.len() implies single_line(#[trigger] others[i]) by {
            assert(others[i] == texts[i + 1]);
        }
        law_lines_read_back(others);
        lemma_line_end(first, rest);
        assert(content.take(first.len() as int) =~= first);
        assert(content.skip(first.len() as int + 1) =~= rest);
        assert(seq![first] + others =~= texts);
    }
}

/// Appending one more line to a file adds it behind the lines that the file held.
pub proof fn law_append_adds_last(texts: Seq<Seq<char>>, text: Seq<char>)
    ensures
        appended(texts.push(text)) == appended(texts) + framed(text),
    decreases texts.len(),
{
    if texts.len() == 0 {
        assert(texts.push(text).drop_first() =~= Seq::empty());
        assert(appended(texts.push(text).drop_first()) =~= Seq::empty());
        assert(appended(texts.push(text)) =~= framed(text));
        assert(appended(texts) + framed(text) =~= framed(text));
    } else {
        law_append_adds_last(texts.drop_first(), text);
        assert(texts.push(text).drop_first() =~= texts.drop_first().push(text));
        assert(appended(texts.push(text)) =~= appended(texts) + framed(text));
    }
}

} // verus!
