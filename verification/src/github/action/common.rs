//! The patch that a command carries in a fenced `diff` block.

use crate::text::{
    chars_of, index_of, is_whitespace, joined, lemma_index_of, lemma_leading_whitespace_is, lemma_split_inclusive,
    lemma_split_inclusive_concat, lemma_split_inclusive_first, lemma_without_char_concat,
    piece_end, push_char, range_is, skip_whitespace, split_inclusive, starts_with, trim_start,
    without_char,
};
use vstd::prelude::*;
use vstd::string::*;

verus! {

broadcast use vstd::string::group_string_axioms;

/// A unified diff, as it is handed to the tool that applies it.
#[derive(Debug)]
pub struct GitApplyPatch {
    pub patch: String,
}

impl View for GitApplyPatch {
    type V = Seq<char>;

    open spec fn view(&self) -> Seq<char> {
        self.patch@
    }
}

/// Why a text holds no patch.
#[derive(Clone, Copy, Debug, PartialEq, Eq, Structural)]
pub enum PatchError {
    /// Nothing is left of the text once its leading whitespace and its
    /// carriage returns are gone.
    NoHeader,
    /// The first line does not open a `diff` block.
    NotADiff,
}

impl PatchError {
    pub open spec fn text(self) -> Seq<char> {
        match self {
            PatchError::NoHeader => "No header."@,
            PatchError::NotADiff => "Not a diff."@,
        }
    }

    pub fn message(&self) -> (m: String)
        ensures
            m@ == self.text(),
    {
        match self {
            PatchError::NoHeader => "No header.".to_owned(),
            PatchError::NotADiff => "Not a diff.".to_owned(),
        }
    }
}

/// The line that opens a block holding a diff starts with this.
pub open spec fn diff_header() -> Seq<char> {
    "```diff"@
}

/// The fence that closes a block.
pub open spec fn closing_fence() -> Seq<char> {
    "```"@
}

/// Whether a line closes the block: it is the fence and nothing else, with
/// or without the line feed that ends it.
pub open spec fn is_closing_fence(line: Seq<char>) -> bool {
    line == closing_fence() || line == closing_fence() + seq!['\n']
}

/// The text in which a patch is looked for: the arguments without leading
/// whitespace and without any carriage return.
pub open spec fn normalized(value: Seq<char>) -> Seq<char> {
    without_char(trim_start(value), '\r')
}

/// The first line at or after `from` that is a closing fence, or the number
/// of lines if there is none.
pub open spec fn fence_position(lines: Seq<Seq<char>>, from: int) -> int
    decreases lines.len() - from,
{
    if from < 0 || from >= lines.len() {
        lines.len() as int
    } else if is_closing_fence(lines[from]) {
        from
    } else {
        fence_position(lines, from + 1)
    }
}

/// The patch in the arguments of a command. The lines keep their line
/// feeds. The first line must open a `diff` block; the patch is made of the
/// lines after it, up to the first line that closes the block, or of all of
/// them if none does. What follows the closing line is left out.
pub open spec fn patch_of(value: Seq<char>) -> Result<Seq<char>, PatchError> {
    let lines = split_inclusive(normalized(value), '\n');
    if lines.len() == 0 {
        Err(PatchError::NoHeader)
    } else if !starts_with(lines[0], diff_header()) {
        Err(PatchError::NotADiff)
    } else {
        Ok(joined(lines.subrange(1, fence_position(lines, 1))))
    }
}

pub proof fn lemma_fence_position(lines: Seq<Seq<char>>, from: int, at: int)
    requires
        0 <= from <= at <= lines.len(),
        forall|j: int| from <= j < at ==> !is_closing_fence(#[trigger] lines[j]),
        at < lines.len() ==> is_closing_fence(lines[at]),
    ensures
        fence_position(lines, from) == at,
    decreases at - from,
{
    if from < at {
        lemma_fence_position(lines, from + 1, at);
    }
}

/// `chars` from `from` on, without carriage returns.
fn strip_carriage_returns(chars: &Vec<char>, from: usize) -> (text: Vec<char>)
    requires
        from <= chars.len(),
    ensures
        text@ == without_char(chars@.skip(from as int), '\r'),
{
    let mut text: Vec<char> = Vec::new();
    let mut i: usize = from;
    while i < chars.len()
        invariant
            from <= i <= chars.len(),
            text@ == without_char(chars@.subrange(from as int, i as int), '\r'),
        decreases chars.len() - i,
    {
        proof {
            let next = chars@.subrange(from as int, i + 1);
            assert(next.drop_last() == chars@.subrange(from as int, i as int));
            assert(next.last() == chars@[i as int]);
        }
        if chars[i] != '\r' {
            text.push(chars[i]);
        }
        i += 1;
    }
    assert(chars@.subrange(from as int, chars.len() as int) == chars@.skip(from as int));
    text
}

/// Whether the line `text[from..to]` closes the block.
fn closes_block(text: &Vec<char>, from: usize, to: usize, fence: &Vec<char>) -> (b: bool)
    requires
        from <= to <= text.len(),
        fence@ == closing_fence(),
    ensures
        b == is_closing_fence(text@.subrange(from as int, to as int)),
{
    let ghost line = text@.subrange(from as int, to as int);
    if range_is(text, from, to, fence) {
        return true;
    }
    if to > from && text[to - 1] == '\n' {
        let bare = range_is(text, from, to - 1, fence);
        proof {
            assert(line == text@.subrange(from as int, to - 1).push('\n'));
            assert(line.drop_last() == text@.subrange(from as int, to - 1));
            if line == closing_fence() + seq!['\n'] {
                assert((closing_fence() + seq!['\n']).drop_last() == closing_fence());
            }
            if bare {
                assert(closing_fence().push('\n') == closing_fence() + seq!['\n']);
            }
        }
        bare
    } else {
        proof {
            if to > from {
                assert(line.last() == text@[to - 1]);
                assert((closing_fence() + seq!['\n']).last() == '\n');
            } else {
                assert((closing_fence() + seq!['\n']).len() > 0);
            }
        }
        false
    }
}

impl GitApplyPatch {
    /// Takes the patch out of the arguments of a command.
    pub fn try_from(value: String) -> (r: Result<GitApplyPatch, PatchError>)
        ensures
            match patch_of(value@) {
                Ok(patch) => r matches Ok(p) && p@ == patch,
                Err(e) => r == Err::<GitApplyPatch, _>(e),
            },
    {
        let chars = chars_of(value.as_str());
        let start = skip_whitespace(&chars, 0);
        assert(chars@.skip(0) == chars@);
        let text = strip_carriage_returns(&chars, start);
        assert(text@ == normalized(value@));
        let ghost lines = split_inclusive(text@, '\n');
        if text.len() == 0 {
            return Err(PatchError::NoHeader);
        }
        assert(text@.skip(0) == text@);
        let header_end = piece_end(&text, 0, '\n');
        let header = chars_of("```diff");
        let fence = chars_of("```");
        assert(text@.subrange(0, header_end as int) == lines[0]);
        if header.len() > header_end {
            return Err(PatchError::NotADiff);
        }
        if !range_is(&text, 0, header.len(), &header) {
            assert(lines[0].take(header@.len() as int) == text@.subrange(0, header@.len() as int));
            return Err(PatchError::NotADiff);
        }
        assert(lines[0].take(header@.len() as int) == text@.subrange(0, header@.len() as int));
        assert(starts_with(lines[0], diff_header()));
        let mut patch = String::new();
        let mut pos: usize = header_end;
        let ghost mut k: int = 1;
        assert(lines.skip(1) == split_inclusive(text@.skip(pos as int), '\n'));
        assert(lines.subrange(1, 1) == Seq::<Seq<char>>::empty());
        while pos < text.len()
            invariant
                pos <= text.len(),
                1 <= k <= lines.len(),
                text@ == normalized(value@),
                starts_with(lines[0], diff_header()),
                lines == split_inclusive(text@, '\n'),
                lines.skip(k) == split_inclusive(text@.skip(pos as int), '\n'),
                forall|j: int| 1 <= j < k ==> !is_closing_fence(#[trigger] lines[j]),
                patch@ == joined(lines.subrange(1, k)),
                fence@ == closing_fence(),
            decreases text.len() - pos,
        {
            let end = piece_end(&text, pos, '\n');
            proof {
                let rest = split_inclusive(text@.skip(pos as int), '\n');
                assert(rest.len() >= 1);
                assert(lines.skip(k).len() == lines.len() - k);
                assert(rest[0] == text@.subrange(pos as int, end as int));
                assert(lines.skip(k)[0] == lines[k]);
                assert(lines.skip(k + 1) == lines.skip(k).skip(1));
                assert(rest.skip(1) == split_inclusive(text@.skip(end as int), '\n'));
            }
            if closes_block(&text, pos, end, &fence) {
                proof {
                    assert(is_closing_fence(lines[k]));
                    lemma_fence_position(lines, 1, k);
                }
                return Ok(GitApplyPatch { patch });
            }
            assert(!is_closing_fence(lines[k]));
            let mut i: usize = pos;
            while i < end
                invariant
                    pos <= i <= end <= text.len(),
                    1 <= k < lines.len(),
                    patch@ == joined(lines.subrange(1, k)) + text@.subrange(pos as int, i as int),
                decreases end - i,
            {
                push_char(&mut patch, text[i]);
                assert(text@.subrange(pos as int, i + 1) == text@.subrange(pos as int, i as int).push(
                    text@[i as int],
                ));
                i += 1;
            }
            proof {
                let next = lines.subrange(1, k + 1);
                assert(next.drop_last() == lines.subrange(1, k));
                assert(next.last() == lines[k]);
                k = k + 1;
            }
            pos = end;
        }
        proof {
            assert(text@.skip(pos as int).len() == 0);
            assert(lines.skip(k).len() == 0);
            lemma_fence_position(lines, 1, k);
        }
        Ok(GitApplyPatch { patch })
    }
}

/// What the two fences hold.
pub proof fn lemma_fences()
    ensures
        diff_header() == seq!['`', '`', '`', 'd', 'i', 'f', 'f'],
        closing_fence() == seq!['`', '`', '`'],
{
    reveal_strlit("```diff");
    reveal_strlit("```");
    assert(diff_header() =~= seq!['`', '`', '`', 'd', 'i', 'f', 'f']);
    assert(closing_fence() =~= seq!['`', '`', '`']);
}

/// A patch is found exactly where the text, once normalized, starts by
/// opening a `diff` block.
pub proof fn patch_needs_diff_header(value: Seq<char>)
    ensures
        patch_of(value) is Ok <==> starts_with(normalized(value), diff_header()),
{
    lemma_fences();
    let text = normalized(value);
    let lines = split_inclusive(text, '\n');
    lemma_index_of(text, '\n');
    let n = diff_header().len() as int;
    if text.len() > 0 {
        let i = index_of(text, '\n');
        if i < text.len() {
            assert(lines[0] == text.take(i + 1));
            if starts_with(text, diff_header()) {
                assert(forall|j: int| 0 <= j < n ==> text[j] == diff_header()[j]);
                assert(i >= n) by {
                    if i < n {
                        assert(text[i] == diff_header()[i]);
                    }
                }
                assert(lines[0].take(n) == text.take(n));
            }
            if starts_with(lines[0], diff_header()) {
                assert(lines[0].take(n) == text.take(n));
            }
        } else {
            assert(lines[0] == text);
        }
    }
}

/// Whether none of the lines of `text` closes a block.
pub open spec fn holds_no_closing_line(text: Seq<char>) -> bool {
    forall|k: int|
        0 <= k < split_inclusive(text, '\n').len() ==> !is_closing_fence(
            #[trigger] split_inclusive(text, '\n')[k],
        )
}

/// The end of a line: a line feed, after a carriage return or not.
pub open spec fn line_end(carriage: bool) -> Seq<char> {
    if carriage {
        seq!['\r', '\n']
    } else {
        seq!['\n']
    }
}

/// A text in a `diff` block: leading whitespace or none, the opening line,
/// then `interior`, which is made of whole lines of which none closes the
/// block, then the closing fence, and after it nothing or the end of its
/// line and whatever follows. Lines may end with a carriage return and a
/// line feed. The patch taken from it is `interior` without its carriage
/// returns.
pub proof fn fenced_patch_is_extracted(
    lead: Seq<char>,
    carriage: bool,
    interior: Seq<char>,
    tail: Seq<char>,
)
    requires
        forall|i: int| 0 <= i < lead.len() ==> is_whitespace(#[trigger] lead[i]),
        interior.len() == 0 || interior.last() == '\n',
        holds_no_closing_line(without_char(interior, '\r')),
        without_char(tail, '\r').len() == 0 || without_char(tail, '\r')[0] == '\n',
    ensures
        patch_of(lead + diff_header() + line_end(carriage) + interior + closing_fence() + tail)
            == Ok::<_, PatchError>(without_char(interior, '\r')),
{
    lemma_fences();
    let fence = closing_fence();
    let value = lead + diff_header() + line_end(carriage) + interior + fence + tail;
    let body = without_char(interior, '\r');
    let rest = without_char(tail, '\r');
    let opening = diff_header() + seq!['\n'];
    // The leading whitespace is trimmed, and nothing else: the header starts
    // with the fence.
    let trimmed = diff_header() + line_end(carriage) + interior + fence + tail;
    assert(value == lead + trimmed);
    assert(!is_whitespace(trimmed[0]));
    assert forall|j: int| 0 <= j < lead.len() implies is_whitespace(value[j]) by {
        assert(value[j] == lead[j]);
    }
    assert(value[lead.len() as int] == trimmed[0]);
    lemma_leading_whitespace_is(value, lead.len() as int);
    assert(value.skip(lead.len() as int) == trimmed);
    // The carriage returns go, wherever they stand.
    lemma_without_char_concat(diff_header() + line_end(carriage) + interior + fence, tail, '\r');
    lemma_without_char_concat(diff_header() + line_end(carriage) + interior, fence, '\r');
    lemma_without_char_concat(diff_header() + line_end(carriage), interior, '\r');
    lemma_without_char_concat(diff_header(), line_end(carriage), '\r');
    crate::text::lemma_without_char_absent(diff_header(), '\r');
    crate::text::lemma_without_char_absent(fence, '\r');
    assert(without_char(line_end(carriage), '\r') == seq!['\n']) by {
        reveal_with_fuel(without_char, 3);
        if carriage {
            assert(seq!['\r', '\n'].drop_last() == seq!['\r']);
            assert(seq!['\r'].drop_last() == Seq::<char>::empty());
            assert(Seq::<char>::empty().push('\n') == seq!['\n']);
        } else {
            assert(seq!['\n'].drop_last() == Seq::<char>::empty());
            assert(Seq::<char>::empty().push('\n') == seq!['\n']);
        }
    }
    let text = (opening + body) + (fence + rest);
    assert(normalized(value) == text);
    // The interior keeps its last line feed.
    if interior.len() > 0 {
        assert(interior.drop_last().push('\n') == interior);
        assert(body.len() > 0 && body.last() == '\n');
    }
    // The lines: the opening line, those of the interior, the closing line
    // and what follows it.
    lemma_split_inclusive_concat(opening + body, fence + rest, '\n');
    lemma_split_inclusive_concat(opening, body, '\n');
    lemma_split_inclusive_first(opening, '\n', opening.len() as int);
    assert(opening.take(opening.len() as int) == opening);
    assert(split_inclusive(opening.skip(opening.len() as int), '\n') == Seq::<Seq<char>>::empty());
    let inner = split_inclusive(body, '\n');
    let closing = fence + rest;
    let after = split_inclusive(closing, '\n');
    if rest.len() == 0 {
        assert(closing == fence);
        lemma_split_inclusive_first(closing, '\n', 3);
        assert(closing.take(3) == fence);
    } else {
        lemma_split_inclusive_first(closing, '\n', 4);
        assert(closing.take(4) == fence + seq!['\n']);
    }
    assert(after.len() > 0 && is_closing_fence(after[0]));
    let lines = split_inclusive(text, '\n');
    assert(lines == seq![opening] + inner + after);
    let fence_at: int = inner.len() as int + 1;
    assert(lines[fence_at] == after[0]);
    assert forall|j: int| 1 <= j < fence_at implies !is_closing_fence(#[trigger] lines[j]) by {
        assert(lines[j] == inner[j - 1]);
    }
    lemma_fence_position(lines, 1, fence_at);
    assert(lines.subrange(1, fence_at) == inner);
    lemma_split_inclusive(body, '\n');
    assert(lines[0] == opening);
    assert(opening.take(diff_header().len() as int) == diff_header());
}

} // verus!
