//! File names and paths as sequences of characters.
//!
//! Everything that reaches the disk goes through a name that
//! [`is_valid_filename`] accepts. Both `/` and `\` count as separators on every
//! platform, so a name that is safe here is safe wherever the files end up.

use vstd::prelude::*;
use vstd::std_specs::iter::IteratorSpec;

verus! {

/// A character that separates the segments of a path on some platform.
pub open spec fn is_separator(c: char) -> bool {
    c == '/' || c == '\\'
}

/// Some character of `name` is a path separator.
pub open spec fn has_separator(name: Seq<char>) -> bool {
    exists|i: int| 0 <= i < name.len() && is_separator(#[trigger] name[i])
}

/// Two dots stand next to each other somewhere in `name`.
pub open spec fn has_parent_marker(name: Seq<char>) -> bool {
    exists|i: int| 0 <= i < name.len() - 1 && #[trigger] name[i] == '.' && name[i + 1] == '.'
}

/// `name` is the single dot that stands for the current directory.
pub open spec fn is_current_dir(name: Seq<char>) -> bool {
    name.len() == 1 && name[0] == '.'
}

/// `name` is the pair of dots that stands for the parent directory.
pub open spec fn is_parent_dir(name: Seq<char>) -> bool {
    name.len() == 2 && name[0] == '.' && name[1] == '.'
}

/// A letter of the English alphabet.
pub open spec fn is_ascii_letter(c: char) -> bool {
    ('a' <= c && c <= 'z') || ('A' <= c && c <= 'Z')
}

/// `name` begins with a drive prefix: a letter and a colon.
pub open spec fn has_drive_prefix(name: Seq<char>) -> bool {
    name.len() >= 2 && is_ascii_letter(name[0]) && name[1] == ':'
}

/// The names that may be used for a file inside a workspace: one non-empty
/// segment that is not `.`, holds neither `..` nor a `/` nor a `\`, and does
/// not begin with a drive prefix.
pub open spec fn is_valid_filename(name: Seq<char>) -> bool {
    &&& name.len() > 0
    &&& !has_separator(name)
    &&& !has_parent_marker(name)
    &&& !is_current_dir(name)
    &&& !has_drive_prefix(name)
}

/// The position of the last character of `text` that equals `a` or `b`, or
/// `-1` where there is none.
pub open spec fn last_match(text: Seq<char>, a: char, b: char) -> int
    decreases text.len(),
{
    if text.len() == 0 {
        -1
    } else if text.last() == a || text.last() == b {
        text.len() - 1
    } else {
        last_match(text.drop_last(), a, b)
    }
}

/// What follows the last separator of `path`: all of `path` where it has none.
pub open spec fn final_segment(path: Seq<char>) -> Seq<char> {
    path.skip(last_match(path, '/', '\\') + 1)
}

/// The file that `path` names: its final segment, unless that is empty, `.`
/// or `..`.
pub open spec fn file_name_in(path: Seq<char>) -> Option<Seq<char>> {
    let segment = final_segment(path);
    if segment.len() == 0 || is_current_dir(segment) || is_parent_dir(segment) {
        None
    } else {
        Some(segment)
    }
}

/// The extension of a file name: what follows its last dot, unless the name
/// has no dot or its only dot comes first.
pub open spec fn extension_of(name: Seq<char>) -> Option<Seq<char>> {
    let dot = last_match(name, '.', '.');
    if dot <= 0 {
        None
    } else {
        Some(name.skip(dot + 1))
    }
}

/// The path of the entry `name` of the directory `dir`. A `/` is put between
/// the two unless `dir` is empty or already ends with one.
pub open spec fn child_path(dir: Seq<char>, name: Seq<char>) -> Seq<char> {
    if dir.len() == 0 || dir.last() == '/' {
        dir + name
    } else {
        dir + seq!['/'] + name
    }
}

/// The view of an optional string.
pub open spec fn text_of(value: Option<String>) -> Option<Seq<char>> {
    match value {
        Some(text) => Some(text@),
        None => None,
    }
}

/// `last_match` returns the position of a match, and nothing after it matches.
pub proof fn lemma_last_match(text: Seq<char>, a: char, b: char)
    ensures
        -1 <= last_match(text, a, b) < text.len(),
        last_match(text, a, b) >= 0 ==> text[last_match(text, a, b)] == a || text[last_match(
            text,
            a,
            b,
        )] == b,
        forall|j: int|
            last_match(text, a, b) < j < text.len() ==> #[trigger] text[j] != a && text[j] != b,
    decreases text.len(),
{
    if text.len() > 0 && !(text.last() == a || text.last() == b) {
        let front = text.drop_last();
        lemma_last_match(front, a, b);
        assert forall|j: int| last_match(text, a, b) < j < text.len() implies #[trigger] text[j]
            != a && text[j] != b by {
            if j < front.len() {
                assert(front[j] == text[j]);
            }
        }
    }
}

/// The final segment of a path holds no separator, and what stands before it
/// is empty or ends with one.
pub proof fn lemma_final_segment(path: Seq<char>)
    ensures
        !has_separator(final_segment(path)),
        final_segment(path).len() <= path.len(),
        path.len() > final_segment(path).len() ==> is_separator(
            path[path.len() - final_segment(path).len() - 1],
        ),
        path == path.take(path.len() - final_segment(path).len()) + final_segment(path),
{
    lemma_last_match(path, '/', '\\');
    let cut = last_match(path, '/', '\\') + 1;
    let segment = final_segment(path);
    if has_separator(segment) {
        let k = choose|k: int| 0 <= k < segment.len() && is_separator(#[trigger] segment[k]);
        assert(segment[k] == path[cut + k]);
    }
    assert(path =~= path.take(cut) + segment);
}

/// A position whose character matches, with no match after it, is the last
/// match.
pub proof fn lemma_last_match_is(text: Seq<char>, a: char, b: char, position: int)
    requires
        -1 <= position < text.len(),
        position >= 0 ==> text[position] == a || text[position] == b,
        forall|j: int| position < j < text.len() ==> #[trigger] text[j] != a && text[j] != b,
    ensures
        last_match(text, a, b) == position,
{
    lemma_last_match(text, a, b);
}

/// Every name that is empty or holds a `/`, a `\` or `..` is refused.
pub proof fn lemma_unsafe_names_are_refused(name: Seq<char>)
    requires
        name.len() == 0 || name.contains('/') || name.contains('\\') || has_parent_marker(name),
    ensures
        !is_valid_filename(name),
{
    if name.contains('/') {
        let i = choose|i: int| 0 <= i < name.len() && name[i] == '/';
        assert(is_separator(name[i]));
    } else if name.contains('\\') {
        let i = choose|i: int| 0 <= i < name.len() && name[i] == '\\';
        assert(is_separator(name[i]));
    }
}

/// Every plain name of one segment is accepted: one that is not empty, is
/// not `.`, holds neither a separator nor `..`, and does not begin with a
/// drive prefix.
pub proof fn lemma_plain_names_are_accepted(name: Seq<char>)
    requires
        name.len() > 0,
        !name.contains('/'),
        !name.contains('\\'),
        !has_parent_marker(name),
        !is_current_dir(name),
        !has_drive_prefix(name),
    ensures
        is_valid_filename(name),
{
    if has_separator(name) {
        let i = choose|i: int| 0 <= i < name.len() && is_separator(#[trigger] name[i]);
        assert(name.contains(name[i]));
    }
}

/// A valid file name put into a directory is the file that the resulting
/// path names: the path leads to that entry of the directory and to nothing
/// else.
pub proof fn lemma_child_path_names_the_file(dir: Seq<char>, name: Seq<char>)
    requires
        is_valid_filename(name),
    ensures
        final_segment(child_path(dir, name)) == name,
        file_name_in(child_path(dir, name)) == Some(name),
{
    let path = child_path(dir, name);
    let start = path.len() - name.len();
    assert forall|j: int| start <= j < path.len() implies !is_separator(#[trigger] path[j]) by {
        assert(path[j] == name[j - start]);
    }
    if start > 0 {
        assert(path[start - 1] == '/');
    }
    lemma_last_match_is(path, '/', '\\', start - 1);
    assert(path.skip(start) =~= name);
    if is_parent_dir(name) {
        assert(name[0] == '.' && name[1] == '.');
    }
}

/// `path` leads to a direct entry of the directory `dir`: it is `dir`, one
/// `/` and one valid file name, so that nothing in it leads out of `dir` or
/// further down.
pub open spec fn lies_directly_in(path: Seq<char>, dir: Seq<char>) -> bool {
    &&& path.len() > dir.len() + 1
    &&& path.take(dir.len() as int) == dir
    &&& path[dir.len() as int] == '/'
    &&& is_valid_filename(path.skip(dir.len() + 1int))
}

/// A valid file name put into a directory whose path ends with a valid name
/// leads to a direct entry of that directory.
pub proof fn lemma_child_lies_directly_in(parent: Seq<char>, dir_name: Seq<char>, name: Seq<char>)
    requires
        is_valid_filename(dir_name),
        is_valid_filename(name),
    ensures
        lies_directly_in(
            child_path(child_path(parent, dir_name), name),
            child_path(parent, dir_name),
        ),
{
    let dir = child_path(parent, dir_name);
    let path = child_path(dir, name);
    assert(dir.last() == dir_name.last());
    assert(!is_separator(dir_name[dir_name.len() - 1]));
    assert(path == dir + seq!['/'] + name);
    assert(path.take(dir.len() as int) =~= dir);
    assert(path.skip(dir.len() + 1int) =~= name);
}

/// Two valid file names that lead to the same path in a directory are the
/// same name.
pub proof fn lemma_child_path_is_injective(dir: Seq<char>, first: Seq<char>, second: Seq<char>)
    requires
        is_valid_filename(first),
        is_valid_filename(second),
        child_path(dir, first) == child_path(dir, second),
    ensures
        first == second,
{
    lemma_child_path_names_the_file(dir, first);
    lemma_child_path_names_the_file(dir, second);
}

/// Entries of two different directories of one root never share a path,
/// whatever their names.
pub proof fn lemma_entries_of_distinct_directories_differ(
    root: Seq<char>,
    first: Seq<char>,
    second: Seq<char>,
    file: Seq<char>,
    other: Seq<char>,
)
    requires
        is_valid_filename(first),
        is_valid_filename(second),
        is_valid_filename(file),
        is_valid_filename(other),
        first != second,
    ensures
        child_path(child_path(root, first), file) != child_path(child_path(root, second), other),
{
    let one = child_path(root, first);
    let two = child_path(root, second);
    if child_path(one, file) == child_path(two, other) {
        lemma_child_path_names_the_file(one, file);
        lemma_child_path_names_the_file(two, other);
        assert(file == other);
        lemma_child_path_names_the_file(root, first);
        lemma_child_path_names_the_file(root, second);
        lemma_final_segment(one);
        lemma_final_segment(two);
        assert(one.last() == first.last());
        assert(two.last() == second.last());
        assert(!is_separator(first.last())) by {
            assert(first[first.len() - 1] == first.last());
        }
        assert(!is_separator(second.last())) by {
            assert(second[second.len() - 1] == second.last());
        }
        let joined = child_path(one, file);
        assert(joined == one + seq!['/'] + file);
        assert(joined == two + seq!['/'] + file);
        assert(one.len() == two.len());
        assert(one =~= joined.take(one.len() as int));
        assert(two =~= joined.take(two.len() as int));
        lemma_child_path_is_injective(root, first, second);
    }
}

/// What one more character does to the two scans that `is_valid_filename`
/// rests on.
proof fn lemma_scan_step(text: Seq<char>, i: int)
    requires
        0 <= i < text.len(),
    ensures
        has_separator(text.take(i + 1)) == (has_separator(text.take(i)) || is_separator(text[i])),
        has_parent_marker(text.take(i + 1)) == (has_parent_marker(text.take(i)) || (i > 0 && text[i
            - 1] == '.' && text[i] == '.')),
{
    let before = text.take(i);
    let after = text.take(i + 1);
    assert(forall|k: int| 0 <= k < i ==> before[k] == after[k]);
    if has_separator(before) {
        let k = choose|k: int| 0 <= k < before.len() && is_separator(#[trigger] before[k]);
        assert(is_separator(after[k]));
    }
    if is_separator(text[i]) {
        assert(is_separator(after[i]));
    }
    if has_separator(after) {
        let k = choose|k: int| 0 <= k < after.len() && is_separator(#[trigger] after[k]);
        if k < i {
            assert(is_separator(before[k]));
        }
    }
    if has_parent_marker(before) {
        let k = choose|k: int|
            0 <= k < before.len() - 1 && #[trigger] before[k] == '.' && before[k + 1] == '.';
        assert(after[k] == '.' && after[k + 1] == '.');
    }
    if i > 0 && text[i - 1] == '.' && text[i] == '.' {
        assert(after[i - 1] == '.' && after[i - 1 + 1] == '.');
    }
    if has_parent_marker(after) {
        let k = choose|k: int|
            0 <= k < after.len() - 1 && #[trigger] after[k] == '.' && after[k + 1] == '.';
        if k < i - 1 {
            assert(before[k] == '.' && before[k + 1] == '.');
        }
    }
}

/// Decides whether `path` is a valid file name.
pub fn path_is_valid(path: &str) -> (valid: bool)
    ensures
        valid == is_valid_filename(path@),
{
    broadcast use vstd::string::group_string_axioms;

    let mut seen: u8 = 0;
    let mut previous_dot = false;
    let mut clean = true;
    let mut starts_with_letter = false;
    let mut drive_prefix = false;
    let chars = path.chars();
    for c in it: chars
        invariant
            it.seq() == path@,
            seen <= 2,
            seen == 0 <==> it.index() == 0,
            seen == 1 <==> it.index() == 1,
            previous_dot == (it.index() > 0 && path@[it.index() - 1] == '.'),
            starts_with_letter == (it.index() > 0 && is_ascii_letter(path@[0])),
            drive_prefix == (it.index() > 1 && has_drive_prefix(path@)),
            clean == (!has_separator(path@.take(it.index())) && !has_parent_marker(
                path@.take(it.index()),
            )),
    {
        proof {
            lemma_scan_step(path@, it.index());
        }
        if c == '/' || c == '\\' || (previous_dot && c == '.') {
            clean = false;
        }
        if seen == 0 {
            starts_with_letter = ('a' <= c && c <= 'z') || ('A' <= c && c <= 'Z');
        } else if seen == 1 {
            drive_prefix = starts_with_letter && c == ':';
        }
        previous_dot = c == '.';
        if seen < 2 {
            seen = seen + 1;
        }
    }
    assert(path@.take(path@.len() as int) == path@);
    clean && seen != 0 && !(seen == 1 && previous_dot) && !drive_prefix
}

/// Finds the last character of `text` that equals `a` or `b`.
fn last_index_of(text: &str, a: char, b: char) -> (found: Option<usize>)
    ensures
        match found {
            Some(i) => i == last_match(text@, a, b),
            None => last_match(text@, a, b) == -1,
        },
{
    broadcast use vstd::string::group_string_axioms;

    let length = text.unicode_len();
    let mut found: Option<usize> = None;
    let mut position: usize = 0;
    let chars = text.chars();
    for c in it: chars
        invariant
            it.seq() == text@,
            length == text@.len(),
            position == it.index(),
            match found {
                Some(i) => i == last_match(text@.take(it.index()), a, b),
                None => last_match(text@.take(it.index()), a, b) == -1,
            },
    {
        proof {
            let i = it.index();
            assert(text@.take(i + 1).drop_last() == text@.take(i));
            assert(text@.take(i + 1).last() == c);
        }
        if c == a || c == b {
            found = Some(position);
        }
        position = position + 1;
    }
    assert(text@.take(text@.len() as int) == text@);
    found
}

/// The file that `path` names, if it names one.
pub fn file_name_of(path: &str) -> (name: Option<String>)
    ensures
        text_of(name) == file_name_in(path@),
{
    let length = path.unicode_len();
    let start: usize = match last_index_of(path, '/', '\\') {
        Some(i) => {
            proof {
                lemma_last_match(path@, '/', '\\');
            }
            i + 1
        },
        None => 0,
    };
    proof {
        lemma_last_match(path@, '/', '\\');
    }
    let segment = path.substring_char(start, length);
    assert(segment@ == final_segment(path@));
    let size = length - start;
    if size == 0 {
        return None;
    }
    let first = segment.get_char(0);
    if first == '.' {
        if size == 1 {
            return None;
        }
        if size == 2 && segment.get_char(1) == '.' {
            return None;
        }
    }
    Some(segment.to_owned())
}

/// The extension of the file name `name`, if it has one.
pub fn extension(name: &str) -> (found: Option<String>)
    ensures
        text_of(found) == extension_of(name@),
{
    let length = name.unicode_len();
    match last_index_of(name, '.', '.') {
        Some(dot) => {
            if dot == 0 {
                None
            } else {
                proof {
                    lemma_last_match(name@, '.', '.');
                }
                Some(name.substring_char(dot + 1, length).to_owned())
            }
        },
        None => None,
    }
}

/// Builds the path of the entry `name` of the directory `dir`.
pub fn join(dir: &str, name: &str) -> (path: String)
    ensures
        path@ == child_path(dir@, name@),
{
    let length = dir.unicode_len();
    let mut path = dir.to_owned();
    if length > 0 && dir.get_char(length - 1) != '/' {
        proof {
            reveal_strlit("/");
        }
        path.append("/");
        assert(path@ == dir@ + seq!['/']);
    }
    path.append(name);
    path
}

} // verus!
