//! Asset names: how a caller-supplied name is reduced to the name of one file.
//!
//! A caller names a model by an arbitrary string. The asset server never uses
//! that string as a path. It keeps the final component only, read as a path
//! whose components are separated by `/`: trailing separators and components
//! that are a single `.` are passed over, and a path that then ends in `..`,
//! or in nothing, names no file. What is left is a plain name, so a file
//! reached through it lies directly inside the model directory.

use vstd::prelude::*;

verus! {

/// The suffix by which a file of the model directory counts as a model.
pub const MODEL_SUFFIX: &'static str = ".vrm";

/// A component that is a single `.`.
pub open spec fn is_dot(name: Seq<char>) -> bool {
    name.len() == 1 && name[0] == '.'
}

/// A component that is `..`.
pub open spec fn is_dot_dot(name: Seq<char>) -> bool {
    name.len() == 2 && name[0] == '.' && name[1] == '.'
}

/// A name that stands for a file directly inside a directory: it is not
/// empty, holds no separator, and is neither `.` nor `..`.
pub open spec fn is_plain_name(name: Seq<char>) -> bool {
    &&& name.len() > 0
    &&& forall|i: int| 0 <= i < name.len() ==> name[i] != '/'
    &&& !is_dot(name)
    &&& !is_dot_dot(name)
}

/// Whether the character before `end` belongs to what may follow the final
/// component: it is a separator, or a `.` that is a component by itself.
pub open spec fn passed_over(path: Seq<char>, end: int) -> bool
    recommends
        0 < end <= path.len(),
{
    path[end - 1] == '/' || (path[end - 1] == '.' && (end == 1 || path[end - 2] == '/'))
}

/// Where the final component ends, looking at the first `end` characters:
/// the longest prefix that does not end in a character that is passed over.
pub open spec fn name_end(path: Seq<char>, end: int) -> int
    recommends
        0 <= end <= path.len(),
    decreases end,
{
    if end <= 0 {
        0
    } else if passed_over(path, end) {
        name_end(path, end - 1)
    } else {
        end
    }
}

/// Where the component that ends at `end` starts: just after the last
/// separator before `end`, or at the start of the path.
pub open spec fn name_start(path: Seq<char>, end: int) -> int
    recommends
        0 <= end <= path.len(),
    decreases end,
{
    if end <= 0 {
        0
    } else if path[end - 1] == '/' {
        end
    } else {
        name_start(path, end - 1)
    }
}

/// The final component of a path, if it has one: its last component that is
/// neither empty nor `.`, unless that component is `..`.
pub open spec fn final_component(path: Seq<char>) -> Option<Seq<char>> {
    let end = name_end(path, path.len() as int);
    let start = name_start(path, end);
    let name = path.subrange(start, end);
    if start == end || is_dot_dot(name) {
        None
    } else {
        Some(name)
    }
}

/// Whether a name ends in the model suffix.
pub open spec fn has_model_suffix(name: Seq<char>) -> bool {
    MODEL_SUFFIX@.is_suffix_of(name)
}

/// `name_end` stays within the characters it looks at, and where it stops
/// short of the start, it stops behind a character that is not passed over.
pub proof fn lemma_name_end(path: Seq<char>, end: int)
    requires
        0 <= end <= path.len(),
    ensures
        0 <= name_end(path, end) <= end,
        name_end(path, end) > 0 ==> !passed_over(path, name_end(path, end)),
    decreases end,
{
    if end > 0 && passed_over(path, end) {
        lemma_name_end(path, end - 1);
    }
}

/// `name_start` finds the nearest component boundary at or before `end`:
/// no separator lies between it and `end`.
pub proof fn lemma_name_start(path: Seq<char>, end: int)
    requires
        0 <= end <= path.len(),
    ensures
        0 <= name_start(path, end) <= end,
        name_start(path, end) == 0 || path[name_start(path, end) - 1] == '/',
        forall|i: int| name_start(path, end) <= i < end ==> path[i] != '/',
    decreases end,
{
    if end > 0 && path[end - 1] != '/' {
        lemma_name_start(path, end - 1);
    }
}

/// A component boundary with no separator up to `end` is where `name_start`
/// arrives.
proof fn lemma_name_start_at(path: Seq<char>, start: int, end: int)
    requires
        0 <= start <= end <= path.len(),
        start == 0 || path[start - 1] == '/',
        forall|i: int| start <= i < end ==> path[i] != '/',
    ensures
        name_start(path, end) == start,
    decreases end - start,
{
    if start < end {
        lemma_name_start_at(path, start, end - 1);
    }
}

/// Containment: whatever the path, its final component is a plain name, and
/// it is a whole component of the path.
pub proof fn lemma_final_component_is_plain(path: Seq<char>)
    ensures
        final_component(path) matches Some(name) ==> {
            &&& is_plain_name(name)
            &&& exists|start: int, end: int|
                {
                    &&& 0 <= start <= end <= path.len()
                    &&& #[trigger] path.subrange(start, end) == name
                    &&& (start == 0 || path[start - 1] == '/')
                    &&& (end == path.len() || path[end] == '/')
                }
        },
{
    let end = name_end(path, path.len() as int);
    lemma_name_end(path, path.len() as int);
    let start = name_start(path, end);
    lemma_name_start(path, end);
    if final_component(path) is Some {
        let name = path.subrange(start, end);
        assert(final_component(path) == Some(name));
        assert forall|i: int| 0 <= i < name.len() implies name[i] != '/' by {
            assert(name[i] == path[start + i]);
        }
        assert(!is_dot(name)) by {
            if is_dot(name) {
                assert(name[0] == path[start]);
                assert(passed_over(path, end));
            }
        }
        assert(is_plain_name(name));
        assert(end == path.len() || path[end] == '/') by {
            if end < path.len() {
                lemma_stops_before_separator(path, path.len() as int);
            }
        }
    }
}

/// Where `name_end` stops short of `end`, and a name ends there, the next
/// character is a separator.
proof fn lemma_stops_before_separator(path: Seq<char>, end: int)
    requires
        0 <= end <= path.len(),
        0 < name_end(path, end) < end,
    ensures
        path[name_end(path, end)] == '/',
    decreases end,
{
    lemma_name_end(path, end - 1);
    if name_end(path, end - 1) < end - 1 {
        lemma_stops_before_separator(path, end - 1);
    }
}

/// A plain name is its own final component, and stays the final component
/// behind any directory part: `dir`, a separator, then the name.
pub proof fn lemma_final_component_of_plain(dir: Seq<char>, name: Seq<char>)
    requires
        is_plain_name(name),
    ensures
        final_component(name) == Some(name),
        final_component(dir + seq!['/'] + name) == Some(name),
{
    lemma_name_start_at(name, 0, name.len() as int);
    assert(name.subrange(0, name.len() as int) == name);

    let path = dir + seq!['/'] + name;
    let start: int = (dir.len() + 1) as int;
    assert(forall|i: int| 0 <= i < name.len() ==> path[start + i] == name[i]);
    lemma_name_start_at(path, start, path.len() as int);
    assert(path.subrange(start, path.len() as int) == name);
}

/// Passing over trailing separators: a separator at the end of a path does
/// not change its final component.
pub proof fn lemma_trailing_separator(path: Seq<char>)
    ensures
        final_component(path + seq!['/']) == final_component(path),
{
    let longer = path + seq!['/'];
    lemma_same_prefix(path, longer, path.len() as int);
    let end = name_end(path, path.len() as int);
    lemma_name_end(path, path.len() as int);
    lemma_same_start(path, longer, end);
    lemma_name_start(path, end);
    assert(longer.subrange(name_start(path, end), end) == path.subrange(
        name_start(path, end),
        end,
    ));
}

/// Passing over `.` components: a `.` component at the end of a path does
/// not change its final component.
pub proof fn lemma_trailing_dot(path: Seq<char>)
    ensures
        final_component(path + seq!['/', '.']) == final_component(path),
{
    let longer = path + seq!['/', '.'];
    let len = path.len() as int;
    assert(name_end(longer, len + 2) == name_end(longer, len + 1)) by {
        assert(passed_over(longer, len + 2));
    }
    assert(name_end(longer, len + 1) == name_end(longer, len)) by {
        assert(passed_over(longer, len + 1));
    }
    lemma_same_prefix(path, longer, len);
    let end = name_end(path, path.len() as int);
    lemma_name_end(path, path.len() as int);
    lemma_same_start(path, longer, end);
    lemma_name_start(path, end);
    assert(longer.subrange(name_start(path, end), end) == path.subrange(
        name_start(path, end),
        end,
    ));
}

/// A path that ends in a `..` component has no final component, whatever
/// comes before it.
pub proof fn lemma_parent_names_no_file(dir: Seq<char>)
    ensures
        final_component(seq!['.', '.']) is None,
        final_component(dir + seq!['/', '.', '.']) is None,
{
    let alone = seq!['.', '.'];
    assert(!passed_over(alone, 2));
    lemma_name_start_at(alone, 0, 2);
    assert(is_dot_dot(alone.subrange(0, 2)));

    let path = dir + seq!['/', '.', '.'];
    let end = path.len() as int;
    assert(!passed_over(path, end));
    lemma_name_start_at(path, end - 2, end);
    assert(is_dot_dot(path.subrange(end - 2, end)));
}

/// A name that ends in the model suffix has a final component, and that
/// component ends in the model suffix too.
pub proof fn lemma_model_name_has_final_component(name: Seq<char>)
    requires
        has_model_suffix(name),
    ensures
        final_component(name) matches Some(file) && has_model_suffix(file),
{
    reveal_strlit(".vrm");
    let len = name.len() as int;
    let tail = name.subrange(len - 4, len);
    assert(tail[0] == name[len - 4] && tail[1] == name[len - 3] && tail[2] == name[len - 2]
        && tail[3] == name[len - 1]);
    assert(!passed_over(name, len));
    let start = name_start(name, len);
    lemma_name_start(name, len);
    assert(start <= len - 4) by {
        if start > len - 4 {
            assert(name[start - 1] == '/');
        }
    }
    let file = name.subrange(start, len);
    assert(file[file.len() - 1] == name[len - 1]);
    assert(file.subrange(file.len() - 4, file.len() as int) == tail);
}

/// `name_end` depends only on the characters before `end`.
proof fn lemma_same_prefix(a: Seq<char>, b: Seq<char>, end: int)
    requires
        0 <= end <= a.len() <= b.len(),
        forall|i: int| 0 <= i < end ==> a[i] == b[i],
    ensures
        name_end(a, end) == name_end(b, end),
    decreases end,
{
    if end > 0 {
        lemma_same_prefix(a, b, end - 1);
    }
}

/// `name_start` depends only on the characters before `end`.
proof fn lemma_same_start(a: Seq<char>, b: Seq<char>, end: int)
    requires
        0 <= end <= a.len() <= b.len(),
        forall|i: int| 0 <= i < end ==> a[i] == b[i],
    ensures
        name_start(a, end) == name_start(b, end),
    decreases end,
{
    if end > 0 {
        lemma_same_start(a, b, end - 1);
    }
}

/// The characters of a string, in order.
fn chars_of(s: &str) -> (chars: Vec<char>)
    ensures
        chars@ == s@,
{
    let mut chars: Vec<char> = Vec::new();
    for c in it: s.chars()
        invariant
            it.seq() == s@,
            chars@ == s@.take(it.index() as int),
    {
        chars.push(c);
    }
    chars
}

/// Whether the character before `end` is passed over.
fn is_passed_over(chars: &Vec<char>, end: usize) -> (b: bool)
    requires
        0 < end <= chars.len(),
    ensures
        b == passed_over(chars@, end as int),
{
    chars[end - 1] == '/' || (chars[end - 1] == '.' && (end == 1 || chars[end - 2] == '/'))
}

/// Reduces a caller-supplied name to the name of the file it stands for:
/// its final component. `None` where the name has none, as for an empty
/// name, a name made of separators and `.` components only, or one that ends
/// in `..`.
pub fn file_name(path: &str) -> (name: Option<String>)
    ensures
        match name {
            Some(n) => final_component(path@) == Some(n@),
            None => final_component(path@) is None,
        },
{
    let chars = chars_of(path);
    let mut end: usize = chars.len();
    while end > 0 && is_passed_over(&chars, end)
        invariant
            end <= chars.len(),
            name_end(chars@, chars.len() as int) == name_end(chars@, end as int),
        decreases end,
    {
        end -= 1;
    }
    let mut start: usize = end;
    while start > 0 && chars[start - 1] != '/'
        invariant
            start <= end <= chars.len(),
            name_start(chars@, end as int) == name_start(chars@, start as int),
        decreases start,
    {
        start -= 1;
    }
    if start == end {
        return None;
    }
    if end - start == 2 && chars[start] == '.' && chars[start + 1] == '.' {
        return None;
    }
    let name = path.substring_char(start, end);
    Some(name.to_owned())
}

/// Whether a file of the model directory is a model: its name ends in
/// [`MODEL_SUFFIX`], letter for letter.
pub fn is_model_name(name: &str) -> (b: bool)
    ensures
        b == has_model_suffix(name@),
{
    let n: usize = name.unicode_len();
    let b = n >= 4 && name.get_char(n - 4) == '.' && name.get_char(n - 3) == 'v' && name.get_char(
        n - 2,
    ) == 'r' && name.get_char(n - 1) == 'm';
    proof {
        reveal_strlit(".vrm");
        let suffix = MODEL_SUFFIX@;
        assert(suffix.len() == 4);
        assert(suffix[0] == '.' && suffix[1] == 'v' && suffix[2] == 'r' && suffix[3] == 'm');
        if n >= 4 {
            let tail = name@.subrange(n - 4, n as int);
            assert(tail[0] == name@[n - 4] && tail[1] == name@[n - 3] && tail[2] == name@[n - 2]
                && tail[3] == name@[n - 1]);
            assert(b ==> suffix =~= tail);
        }
    }
    b
}

} // verus!
