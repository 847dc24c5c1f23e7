//! Paths as texts whose parts are divided by `/`, taken as they are written.

use crate::text::{chars_of, ends_with, finishes_with, push_char, string_of};
use vstd::prelude::*;
use vstd::string::*;

verus! {

/// `path` seen from `dir`: a path that starts with `/` stands for itself;
/// any other follows `dir`, after a `/` where `dir` does not end with one.
pub open spec fn join(dir: Seq<char>, path: Seq<char>) -> Seq<char> {
    if path.len() > 0 && path[0] == '/' {
        path
    } else if dir.len() == 0 || dir.last() == '/' {
        dir + path
    } else {
        dir + seq!['/'] + path
    }
}

/// Index of the last `/` of `path`, or -1 if it holds none.
pub open spec fn last_separator(path: Seq<char>) -> int
    decreases path.len(),
{
    if path.len() == 0 {
        -1
    } else if path.last() == '/' {
        path.len() - 1
    } else {
        last_separator(path.drop_last())
    }
}

/// What follows the last `/` of `path`: the whole path if it holds none.
pub open spec fn file_name(path: Seq<char>) -> Seq<char> {
    path.skip(last_separator(path) + 1)
}

/// What stands before the last `/` of `path`: nothing if it holds none.
pub open spec fn parent(path: Seq<char>) -> Seq<char> {
    if last_separator(path) < 0 {
        Seq::empty()
    } else {
        path.take(last_separator(path))
    }
}

pub proof fn lemma_last_separator(path: Seq<char>)
    ensures
        -1 <= last_separator(path) < path.len(),
        last_separator(path) >= 0 ==> path[last_separator(path)] == '/',
        forall|j: int| last_separator(path) < j < path.len() ==> path[j] != '/',
    decreases path.len(),
{
    if path.len() > 0 && path.last() != '/' {
        let front = path.drop_last();
        lemma_last_separator(front);
        assert forall|j: int| last_separator(path) < j < path.len() implies path[j] != '/' by {
            if j < front.len() {
                assert(path[j] == front[j]);
            }
        }
        if last_separator(front) >= 0 {
            assert(path[last_separator(front)] == front[last_separator(front)]);
        }
    }
}

pub proof fn lemma_last_separator_is(path: Seq<char>, at: int)
    requires
        -1 <= at < path.len(),
        at >= 0 ==> path[at] == '/',
        forall|j: int| at < j < path.len() ==> path[j] != '/',
    ensures
        last_separator(path) == at,
{
    lemma_last_separator(path);
}

/// The name of a file whose name ends with `.yml`, with the extension
/// `yaml` in its place. A name that is `.yml` and nothing else has no
/// extension to replace: it is given one.
pub open spec fn yaml_name(name: Seq<char>) -> Seq<char> {
    if name.len() == 4 {
        name + ".yaml"@
    } else {
        name.take(name.len() - 3) + "yaml"@
    }
}

/// `path` with the name of its file changed by `yaml_name`.
pub open spec fn renamed_to_yaml(path: Seq<char>) -> Seq<char> {
    path.take(path.len() - file_name(path).len()) + yaml_name(file_name(path))
}

/// Whether the name of the file at `path` ends with `.yml`.
pub open spec fn is_yml(path: Seq<char>) -> bool {
    ends_with(path, ".yml"@)
}

pub fn join_path(dir: &str, path: &str) -> (joined: String)
    ensures
        joined@ == join(dir@, path@),
{
    let head = chars_of(path);
    if head.len() > 0 && head[0] == '/' {
        return path.to_owned();
    }
    let base = chars_of(dir);
    let mut joined = dir.to_owned();
    if base.len() > 0 && base[base.len() - 1] != '/' {
        push_char(&mut joined, '/');
    }
    joined.append(path);
    joined
}

/// Position after the last `/` of `chars`.
pub fn name_start(chars: &Vec<char>) -> (start: usize)
    ensures
        start == last_separator(chars@) + 1,
        start <= chars.len(),
{
    let mut i: usize = chars.len();
    while i > 0 && chars[i - 1] != '/'
        invariant
            i <= chars.len(),
            forall|j: int| i <= j < chars.len() ==> chars@[j] != '/',
        decreases i,
    {
        i -= 1;
    }
    proof {
        lemma_last_separator_is(chars@, i - 1);
    }
    i
}

pub fn file_name_of(path: &str) -> (name: String)
    ensures
        name@ == file_name(path@),
{
    let chars = chars_of(path);
    let start = name_start(&chars);
    let name = string_of(&chars, start, chars.len());
    assert(chars@.subrange(start as int, chars.len() as int) == chars@.skip(start as int));
    name
}

pub fn parent_of(path: &str) -> (dir: String)
    ensures
        dir@ == parent(path@),
{
    let chars = chars_of(path);
    let start = name_start(&chars);
    if start == 0 {
        String::new()
    } else {
        let dir = string_of(&chars, 0, start - 1);
        assert(chars@.subrange(0, start - 1) == chars@.take(start - 1));
        dir
    }
}

pub fn has_yml_name(path: &str) -> (b: bool)
    ensures
        b == is_yml(path@),
{
    let chars = chars_of(path);
    let suffix = chars_of(".yml");
    finishes_with(&chars, &suffix)
}

/// The name of a file that ends with `.yml`, with the extension `yaml`
/// in its place.
pub fn to_yaml_name(name: &str) -> (renamed: String)
    requires
        is_yml(name@),
    ensures
        renamed@ == yaml_name(name@),
{
    let chars = chars_of(name);
    proof {
        reveal_strlit(".yml");
        assert(".yml"@.len() == 4);
    }
    if chars.len() == 4 {
        let mut renamed = name.to_owned();
        renamed.append(".yaml");
        renamed
    } else {
        let mut renamed = string_of(&chars, 0, chars.len() - 3);
        assert(chars@.subrange(0, chars.len() - 3) == chars@.take(chars.len() - 3));
        renamed.append("yaml");
        renamed
    }
}

/// The name of a file that ends with `.yml` holds the extension whole.
pub proof fn lemma_yml_name(path: Seq<char>)
    requires
        is_yml(path),
    ensures
        is_yml(file_name(path)),
        last_separator(path) + 1 <= path.len() - 4,
{
    reveal_strlit(".yml");
    let suffix = ".yml"@;
    assert(suffix.len() == 4);
    assert(suffix[0] == '.' && suffix[1] == 'y' && suffix[2] == 'm' && suffix[3] == 'l');
    lemma_last_separator(path);
    let at = last_separator(path);
    if at >= path.len() - 4 {
        assert(path.skip(path.len() - 4)[at - (path.len() - 4)] == path[at]);
    }
    let name = file_name(path);
    assert(name.skip(name.len() - 4) == path.skip(path.len() - 4));
}

/// The path of a file whose name ends with `.yml`, with the extension
/// `yaml` in its place.
pub fn rename_to_yaml(path: &str) -> (renamed: String)
    requires
        is_yml(path@),
    ensures
        renamed@ == renamed_to_yaml(path@),
{
    let chars = chars_of(path);
    let start = name_start(&chars);
    proof {
        lemma_yml_name(chars@);
        assert(chars@.take(chars@.len() - file_name(chars@).len()) == chars@.subrange(
            0,
            start as int,
        ));
    }
    let mut renamed = string_of(&chars, 0, start);
    let name = string_of(&chars, start, chars.len());
    assert(chars@.subrange(start as int, chars.len() as int) == file_name(chars@));
    let new_name = to_yaml_name(name.as_str());
    renamed.append(new_name.as_str());
    renamed
}

} // verus!
