//! Text as sequences of characters: the vocabulary in which the command
//! grammar, the URLs and the git arguments of this crate are specified, and
//! the executable helpers that compute it on `str` and `String`.

use vstd::prelude::*;
use vstd::std_specs::iter::IteratorSpec;
use vstd::string::*;

verus! {

broadcast use vstd::string::group_string_axioms;

/// Characters with the Unicode `White_Space` property.
pub open spec fn is_whitespace(c: char) -> bool {
    let n = c as u32;
    ||| 0x09 <= n <= 0x0D
    ||| n == 0x20
    ||| n == 0x85
    ||| n == 0xA0
    ||| n == 0x1680
    ||| 0x2000 <= n <= 0x200A
    ||| n == 0x2028
    ||| n == 0x2029
    ||| n == 0x202F
    ||| n == 0x205F
    ||| n == 0x3000
}

/// Index of the first occurrence of `c` in `s`, or `s.len()` if there is none.
pub open spec fn index_of(s: Seq<char>, c: char) -> int
    decreases s.len(),
{
    if s.len() == 0 {
        0
    } else if s[0] == c {
        0
    } else {
        1 + index_of(s.drop_first(), c)
    }
}

/// Index of the first whitespace character of `s`, or `s.len()` if there is none.
pub open spec fn first_whitespace(s: Seq<char>) -> int
    decreases s.len(),
{
    if s.len() == 0 {
        0
    } else if is_whitespace(s[0]) {
        0
    } else {
        1 + first_whitespace(s.drop_first())
    }
}

/// Number of whitespace characters at the start of `s`.
pub open spec fn leading_whitespace(s: Seq<char>) -> int
    decreases s.len(),
{
    if s.len() == 0 {
        0
    } else if !is_whitespace(s[0]) {
        0
    } else {
        1 + leading_whitespace(s.drop_first())
    }
}

/// `s` without its leading whitespace.
pub open spec fn trim_start(s: Seq<char>) -> Seq<char> {
    s.skip(leading_whitespace(s))
}

/// `s` with every occurrence of `c` removed.
pub open spec fn without_char(s: Seq<char>, c: char) -> Seq<char>
    decreases s.len(),
{
    if s.len() == 0 {
        s
    } else if s.last() == c {
        without_char(s.drop_last(), c)
    } else {
        without_char(s.drop_last(), c).push(s.last())
    }
}

pub open spec fn starts_with(s: Seq<char>, prefix: Seq<char>) -> bool {
    prefix.len() <= s.len() && s.take(prefix.len() as int) == prefix
}

pub open spec fn ends_with(s: Seq<char>, suffix: Seq<char>) -> bool {
    suffix.len() <= s.len() && s.skip(s.len() - suffix.len()) == suffix
}

/// The parts of `s` before and after the first occurrence of `c`.
pub open spec fn split_once(s: Seq<char>, c: char) -> Option<(Seq<char>, Seq<char>)> {
    let i = index_of(s, c);
    if i < s.len() {
        Some((s.take(i), s.skip(i + 1)))
    } else {
        None
    }
}

/// `s` cut after each occurrence of `c`; every piece but possibly the last
/// ends with `c`, and no piece is empty.
pub open spec fn split_inclusive(s: Seq<char>, c: char) -> Seq<Seq<char>>
    decreases s.len(),
{
    if s.len() == 0 {
        Seq::empty()
    } else {
        let i = index_of(s, c);
        if 0 <= i < s.len() {
            seq![s.take(i + 1)] + split_inclusive(s.skip(i + 1), c)
        } else {
            seq![s]
        }
    }
}

/// `s` cut at each occurrence of `c`, the separators left out. There is
/// always at least one piece; pieces may be empty.
pub open spec fn split(s: Seq<char>, c: char) -> Seq<Seq<char>>
    decreases s.len(),
{
    let i = index_of(s, c);
    if 0 <= i < s.len() {
        seq![s.take(i)] + split(s.skip(i + 1), c)
    } else {
        seq![s]
    }
}

/// The decimal digit for `d < 10`.
pub open spec fn digit(d: nat) -> char {
    (('0' as u32 + d) as u32) as char
}

/// Decimal representation of `n`, without leading zeros.
pub open spec fn decimal(n: nat) -> Seq<char>
    decreases n,
{
    if n < 10 {
        seq![digit(n)]
    } else {
        decimal(n / 10).push(digit(n % 10))
    }
}

/// The texts held by a sequence of strings.
pub open spec fn string_views(v: Seq<String>) -> Seq<Seq<char>> {
    Seq::new(v.len(), |i: int| v[i]@)
}

/// The texts held by a sequence of string slices.
pub open spec fn str_views(v: Seq<&str>) -> Seq<Seq<char>> {
    Seq::new(v.len(), |i: int| v[i]@)
}

pub proof fn lemma_index_of(s: Seq<char>, c: char)
    ensures
        0 <= index_of(s, c) <= s.len(),
        forall|j: int| 0 <= j < index_of(s, c) ==> s[j] != c,
        index_of(s, c) < s.len() ==> s[index_of(s, c)] == c,
    decreases s.len(),
{
    if s.len() != 0 && s[0] != c {
        lemma_index_of(s.drop_first(), c);
        assert forall|j: int| 0 <= j < index_of(s, c) implies s[j] != c by {
            if j > 0 {
                assert(s[j] == s.drop_first()[j - 1]);
            }
        }
    }
}

/// An index that holds `c` and has no `c` before it is the first one.
pub proof fn lemma_index_of_is(s: Seq<char>, c: char, i: int)
    requires
        0 <= i <= s.len(),
        forall|j: int| 0 <= j < i ==> s[j] != c,
        i < s.len() ==> s[i] == c,
    ensures
        index_of(s, c) == i,
{
    lemma_index_of(s, c);
}

pub proof fn lemma_first_whitespace(s: Seq<char>)
    ensures
        0 <= first_whitespace(s) <= s.len(),
        forall|j: int| 0 <= j < first_whitespace(s) ==> !is_whitespace(s[j]),
        first_whitespace(s) < s.len() ==> is_whitespace(s[first_whitespace(s)]),
    decreases s.len(),
{
    if s.len() != 0 && !is_whitespace(s[0]) {
        lemma_first_whitespace(s.drop_first());
        assert forall|j: int| 0 <= j < first_whitespace(s) implies !is_whitespace(s[j]) by {
            if j > 0 {
                assert(s[j] == s.drop_first()[j - 1]);
            }
        }
    }
}

pub proof fn lemma_first_whitespace_is(s: Seq<char>, i: int)
    requires
        0 <= i <= s.len(),
        forall|j: int| 0 <= j < i ==> !is_whitespace(s[j]),
        i < s.len() ==> is_whitespace(s[i]),
    ensures
        first_whitespace(s) == i,
{
    lemma_first_whitespace(s);
}

pub proof fn lemma_leading_whitespace(s: Seq<char>)
    ensures
        0 <= leading_whitespace(s) <= s.len(),
        forall|j: int| 0 <= j < leading_whitespace(s) ==> is_whitespace(s[j]),
        leading_whitespace(s) < s.len() ==> !is_whitespace(s[leading_whitespace(s)]),
    decreases s.len(),
{
    if s.len() != 0 && is_whitespace(s[0]) {
        lemma_leading_whitespace(s.drop_first());
        assert forall|j: int| 0 <= j < leading_whitespace(s) implies is_whitespace(s[j]) by {
            if j > 0 {
                assert(s[j] == s.drop_first()[j - 1]);
            }
        }
    }
}

pub proof fn lemma_leading_whitespace_is(s: Seq<char>, i: int)
    requires
        0 <= i <= s.len(),
        forall|j: int| 0 <= j < i ==> is_whitespace(s[j]),
        i < s.len() ==> !is_whitespace(s[i]),
    ensures
        leading_whitespace(s) == i,
{
    lemma_leading_whitespace(s);
}

/// Removing a character distributes over concatenation.
pub proof fn lemma_without_char_concat(a: Seq<char>, b: Seq<char>, c: char)
    ensures
        without_char(a + b, c) == without_char(a, c) + without_char(b, c),
    decreases b.len(),
{
    if b.len() == 0 {
        assert(a + b == a);
    } else {
        lemma_without_char_concat(a, b.drop_last(), c);
        assert((a + b).drop_last() == a + b.drop_last());
    }
}

/// A text that holds no `c` is unchanged by removing `c`.
pub proof fn lemma_without_char_absent(s: Seq<char>, c: char)
    requires
        forall|j: int| 0 <= j < s.len() ==> s[j] != c,
    ensures
        without_char(s, c) == s,
    decreases s.len(),
{
    if s.len() > 0 {
        lemma_without_char_absent(s.drop_last(), c);
        assert(s.drop_last().push(s.last()) == s);
    }
}

/// `lines` without the empty ones.
pub open spec fn without_empty(lines: Seq<Seq<char>>) -> Seq<Seq<char>>
    decreases lines.len(),
{
    if lines.len() == 0 {
        lines
    } else if lines.last().len() == 0 {
        without_empty(lines.drop_last())
    } else {
        without_empty(lines.drop_last()).push(lines.last())
    }
}

/// `lines` with each text kept where it first occurs, and nowhere else.
pub open spec fn distinct(lines: Seq<Seq<char>>) -> Seq<Seq<char>>
    decreases lines.len(),
{
    if lines.len() == 0 {
        lines
    } else if distinct(lines.drop_last()).contains(lines.last()) {
        distinct(lines.drop_last())
    } else {
        distinct(lines.drop_last()).push(lines.last())
    }
}

/// Nothing occurs twice in what `distinct` keeps, and it keeps exactly the
/// texts that occur.
pub proof fn lemma_distinct(lines: Seq<Seq<char>>)
    ensures
        distinct(lines).no_duplicates(),
        forall|line: Seq<char>| distinct(lines).contains(line) <==> lines.contains(line),
    decreases lines.len(),
{
    if lines.len() > 0 {
        let front = lines.drop_last();
        lemma_distinct(front);
        let kept = distinct(lines);
        let kept_front = distinct(front);
        assert forall|line: Seq<char>| kept.contains(line) <==> lines.contains(line) by {
            if lines.contains(line) {
                let i = choose|i: int| 0 <= i < lines.len() && lines[i] == line;
                if i < front.len() {
                    assert(front[i] == line);
                    assert(front.contains(line));
                    assert(kept_front.contains(line));
                    let j = choose|j: int| 0 <= j < kept_front.len() && kept_front[j] == line;
                    assert(kept[j] == line);
                } else if !kept_front.contains(lines.last()) {
                    assert(kept[kept.len() - 1] == line);
                } else {
                    let j = choose|j: int| 0 <= j < kept_front.len() && kept_front[j] == line;
                    assert(kept[j] == line);
                }
            }
            if kept.contains(line) {
                let j = choose|j: int| 0 <= j < kept.len() && kept[j] == line;
                if j < kept_front.len() {
                    assert(kept_front[j] == line);
                    assert(kept_front.contains(line));
                    assert(front.contains(line));
                    let i = choose|i: int| 0 <= i < front.len() && front[i] == line;
                    assert(lines[i] == line);
                } else {
                    assert(lines[lines.len() - 1] == line);
                }
            }
        }
    }
}

/// The texts of `lines`, one after the other.
pub open spec fn joined(lines: Seq<Seq<char>>) -> Seq<char>
    decreases lines.len(),
{
    if lines.len() == 0 {
        Seq::empty()
    } else {
        joined(lines.drop_last()) + lines.last()
    }
}

pub proof fn lemma_joined_single(line: Seq<char>)
    ensures
        joined(seq![line]) == line,
{
    reveal_with_fuel(joined, 2);
    assert(seq![line].drop_last() == Seq::<Seq<char>>::empty());
    assert(Seq::<char>::empty() + line == line);
}

pub proof fn lemma_joined_concat(a: Seq<Seq<char>>, b: Seq<Seq<char>>)
    ensures
        joined(a + b) == joined(a) + joined(b),
    decreases b.len(),
{
    if b.len() == 0 {
        assert(a + b == a);
    } else {
        lemma_joined_concat(a, b.drop_last());
        assert((a + b).drop_last() == a + b.drop_last());
    }
}

/// The first piece of a text ends right after the first `c`, or with the
/// text where no `c` stands before its last character.
pub proof fn lemma_split_inclusive_first(s: Seq<char>, c: char, end: int)
    requires
        0 < end <= s.len(),
        forall|j: int| 0 <= j < end - 1 ==> s[j] != c,
        end < s.len() ==> s[end - 1] == c,
    ensures
        split_inclusive(s, c) == seq![s.take(end)] + split_inclusive(s.skip(end), c),
{
    lemma_index_of(s, c);
    let i = index_of(s, c);
    if end < s.len() {
        lemma_index_of_is(s, c, end - 1);
    } else {
        assert(s.take(end) == s);
        assert(s.skip(end).len() == 0);
        if i < s.len() {
            assert(i == s.len() - 1);
        }
    }
}

/// The pieces of a text, put together again, are the text; none is empty,
/// and each but the last ends with `c`.
pub proof fn lemma_split_inclusive(s: Seq<char>, c: char)
    ensures
        joined(split_inclusive(s, c)) == s,
        forall|k: int|
            0 <= k < split_inclusive(s, c).len() ==> (#[trigger] split_inclusive(s, c)[k]).len()
                > 0,
        forall|k: int|
            0 <= k < split_inclusive(s, c).len() - 1 ==> (#[trigger] split_inclusive(
                s,
                c,
            )[k]).last() == c,
        s.len() > 0 && s.last() == c ==> split_inclusive(s, c).last().last() == c,
        s.len() > 0 ==> split_inclusive(s, c).len() > 0,
    decreases s.len(),
{
    lemma_index_of(s, c);
    if s.len() > 0 {
        let i = index_of(s, c);
        if i < s.len() {
            let head = s.take(i + 1);
            let rest = s.skip(i + 1);
            lemma_split_inclusive(rest, c);
            let tail = split_inclusive(rest, c);
            lemma_joined_concat(seq![head], tail);
            lemma_joined_single(head);
            assert(head + rest == s);
            let all = split_inclusive(s, c);
            assert(all == seq![head] + tail);
            assert forall|k: int| 0 <= k < all.len() implies (#[trigger] all[k]).len() > 0 by {
                if k > 0 {
                    assert(all[k] == tail[k - 1]);
                }
            }
            assert forall|k: int| 0 <= k < all.len() - 1 implies (#[trigger] all[k]).last()
                == c by {
                if k > 0 {
                    assert(all[k] == tail[k - 1]);
                }
            }
            if rest.len() > 0 {
                assert(rest.last() == s.last());
                assert(all.last() == tail.last());
            }
        } else {
            lemma_joined_single(s);
        }
    }
}

/// A text that is empty or ends with `c` is cut where it ends: the pieces
/// of what follows it are not touched by it.
pub proof fn lemma_split_inclusive_concat(a: Seq<char>, b: Seq<char>, c: char)
    requires
        a.len() == 0 || a.last() == c,
    ensures
        split_inclusive(a + b, c) == split_inclusive(a, c) + split_inclusive(b, c),
    decreases a.len(),
{
    if a.len() == 0 {
        assert(a + b == b);
    } else {
        lemma_index_of(a, c);
        let i = index_of(a, c);
        assert(i < a.len());
        lemma_index_of_is(a + b, c, i);
        let rest = a.skip(i + 1);
        assert((a + b).take(i + 1) == a.take(i + 1));
        assert((a + b).skip(i + 1) == rest + b);
        if rest.len() > 0 {
            assert(rest.last() == a.last());
        }
        lemma_split_inclusive_concat(rest, b, c);
    }
}

/// The characters of `s`, in order.
pub fn chars_of(s: &str) -> (v: Vec<char>)
    ensures
        v@ == s@,
{
    let mut v: Vec<char> = Vec::new();
    for c in it: s.chars()
        invariant
            v@ == it.seq().take(it.index() as int),
            it.seq() == s@,
    {
        v.push(c);
    }
    v
}

/// Whether two texts hold the same characters.
pub fn str_eq(a: &str, b: &str) -> (same: bool)
    ensures
        same == (a@ == b@),
{
    let mut left = a.chars();
    let mut right = b.chars();
    let ghost mut n: int = 0;
    loop
        invariant
            0 <= n <= a@.len(),
            n <= b@.len(),
            left.remaining() == a@.skip(n),
            right.remaining() == b@.skip(n),
            a@.take(n) == b@.take(n),
        decreases a@.len() - n,
    {
        let x = left.next();
        let y = right.next();
        match (x, y) {
            (None, None) => {
                assert(a@.take(n) == a@);
                assert(b@.take(n) == b@);
                return true;
            },
            (Some(p), Some(q)) => {
                if p != q {
                    assert(a@[n] != b@[n]);
                    return false;
                }
                proof {
                    assert(a@.take(n + 1) == a@.take(n).push(a@[n]));
                    assert(b@.take(n + 1) == b@.take(n).push(b@[n]));
                    assert(a@.skip(n).drop_first() == a@.skip(n + 1));
                    assert(b@.skip(n).drop_first() == b@.skip(n + 1));
                    n = n + 1;
                }
            },
            _ => {
                return false;
            },
        }
    }
}

/// `String::push`: the text grows by exactly the character given.
#[verifier::external_body]
pub(crate) fn push_char(s: &mut String, c: char)
    ensures
        final(s)@ == old(s)@.push(c),
{
    s.push(c)
}

/// The text made of `chars[from..to]`.
pub fn string_of(chars: &Vec<char>, from: usize, to: usize) -> (s: String)
    requires
        from <= to <= chars.len(),
    ensures
        s@ == chars@.subrange(from as int, to as int),
{
    let mut s = String::new();
    let mut i: usize = from;
    while i < to
        invariant
            from <= i <= to <= chars.len(),
            s@ == chars@.subrange(from as int, i as int),
        decreases to - i,
    {
        push_char(&mut s, chars[i]);
        i += 1;
        assert(chars@.subrange(from as int, i as int) == chars@.subrange(from as int, i - 1).push(
            chars@[i - 1],
        ));
    }
    s
}

pub fn is_whitespace_char(c: char) -> (b: bool)
    ensures
        b == is_whitespace(c),
{
    let n: u32 = c as u32;
    (0x09 <= n && n <= 0x0D) || n == 0x20 || n == 0x85 || n == 0xA0 || n == 0x1680 || (0x2000 <= n
        && n <= 0x200A) || n == 0x2028 || n == 0x2029 || n == 0x202F || n == 0x205F || n
        == 0x3000
}

/// Position of the first `c` at or after `from`, or `chars.len()`.
pub fn find_char(chars: &Vec<char>, from: usize, c: char) -> (i: usize)
    requires
        from <= chars.len(),
    ensures
        from <= i <= chars.len(),
        i == from + index_of(chars@.skip(from as int), c),
{
    let mut i: usize = from;
    while i < chars.len() && chars[i] != c
        invariant
            from <= i <= chars.len(),
            forall|j: int| from <= j < i ==> chars@[j] != c,
        decreases chars.len() - i,
    {
        i += 1;
    }
    proof {
        lemma_index_of_is(chars@.skip(from as int), c, i - from);
    }
    i
}

/// Position of the first whitespace character at or after `from`, or `chars.len()`.
pub fn find_whitespace(chars: &Vec<char>, from: usize) -> (i: usize)
    requires
        from <= chars.len(),
    ensures
        from <= i <= chars.len(),
        i == from + first_whitespace(chars@.skip(from as int)),
{
    let mut i: usize = from;
    while i < chars.len() && !is_whitespace_char(chars[i])
        invariant
            from <= i <= chars.len(),
            forall|j: int| from <= j < i ==> !is_whitespace(chars@[j]),
        decreases chars.len() - i,
    {
        i += 1;
    }
    proof {
        lemma_first_whitespace_is(chars@.skip(from as int), i - from);
    }
    i
}

/// Position of the first character at or after `from` that is no whitespace,
/// or `chars.len()`.
pub fn skip_whitespace(chars: &Vec<char>, from: usize) -> (i: usize)
    requires
        from <= chars.len(),
    ensures
        from <= i <= chars.len(),
        i == from + leading_whitespace(chars@.skip(from as int)),
{
    let mut i: usize = from;
    while i < chars.len() && is_whitespace_char(chars[i])
        invariant
            from <= i <= chars.len(),
            forall|j: int| from <= j < i ==> is_whitespace(chars@[j]),
        decreases chars.len() - i,
    {
        i += 1;
    }
    proof {
        lemma_leading_whitespace_is(chars@.skip(from as int), i - from);
    }
    i
}

/// The end of the piece that starts at `pos`: the position after the next
/// `c`, or the end of the text.
pub fn piece_end(chars: &Vec<char>, pos: usize, c: char) -> (end: usize)
    requires
        pos < chars.len(),
    ensures
        pos < end <= chars.len(),
        split_inclusive(chars@.skip(pos as int), c) == seq![
            chars@.subrange(pos as int, end as int),
        ] + split_inclusive(chars@.skip(end as int), c),
{
    let i = find_char(chars, pos, c);
    let end = if i < chars.len() {
        i + 1
    } else {
        i
    };
    proof {
        let rest = chars@.skip(pos as int);
        lemma_index_of(rest, c);
        lemma_split_inclusive_first(rest, c, end - pos);
        assert(rest.take(end - pos) == chars@.subrange(pos as int, end as int));
        assert(rest.skip(end - pos) == chars@.skip(end as int));
    }
    end
}

/// Whether `chars[from..to]` is exactly `word`.
pub fn range_is(chars: &Vec<char>, from: usize, to: usize, word: &Vec<char>) -> (b: bool)
    requires
        from <= to <= chars.len(),
    ensures
        b == (chars@.subrange(from as int, to as int) == word@),
{
    if to - from != word.len() {
        return false;
    }
    let mut k: usize = 0;
    while k < word.len()
        invariant
            from <= to <= chars.len(),
            to - from == word.len(),
            k <= word.len(),
            forall|j: int| 0 <= j < k ==> chars@[from + j] == word@[j],
        decreases word.len() - k,
    {
        if chars[from + k] != word[k] {
            assert(chars@.subrange(from as int, to as int)[k as int] != word@[k as int]);
            return false;
        }
        k += 1;
    }
    assert(chars@.subrange(from as int, to as int) =~= word@);
    true
}

/// Whether `chars` ends with `suffix`.
pub fn finishes_with(chars: &Vec<char>, suffix: &Vec<char>) -> (b: bool)
    ensures
        b == ends_with(chars@, suffix@),
{
    if suffix.len() > chars.len() {
        return false;
    }
    let b = range_is(chars, chars.len() - suffix.len(), chars.len(), suffix);
    assert(chars@.subrange(chars.len() - suffix.len(), chars.len() as int) == chars@.skip(
        chars.len() - suffix.len(),
    ));
    b
}

/// Whether one of `list` is exactly `text`.
pub fn contains_text(list: &Vec<String>, text: &str) -> (found: bool)
    ensures
        found == string_views(list@).contains(text@),
{
    let mut i: usize = 0;
    while i < list.len()
        invariant
            i <= list.len(),
            forall|j: int| 0 <= j < i ==> string_views(list@)[j] != text@,
        decreases list.len() - i,
    {
        if str_eq(list[i].as_str(), text) {
            assert(string_views(list@)[i as int] == text@);
            return true;
        }
        i += 1;
    }
    false
}

/// The decimal digit for `d`.
pub fn digit_char(d: u8) -> (c: char)
    requires
        d < 10,
    ensures
        c == digit(d as nat),
{
    (48u8 + d) as char
}

/// Appends the decimal representation of `n` to `s`.
pub fn push_decimal(s: &mut String, n: u64)
    ensures
        final(s)@ == old(s)@ + decimal(n as nat),
    decreases n,
{
    if n < 10 {
        push_char(s, digit_char(n as u8));
        assert(old(s)@.push(digit(n as nat)) == old(s)@ + decimal(n as nat));
    } else {
        push_decimal(s, n / 10);
        push_char(s, digit_char((n % 10) as u8));
        assert((old(s)@ + decimal((n / 10) as nat)).push(digit((n % 10) as nat)) == old(s)@
            + decimal(n as nat));
    }
}

} // verus!
