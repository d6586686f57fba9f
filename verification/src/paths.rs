//! Paths as text, with `/` between components.
//!
//! A path is read from its end. Components that are empty (a doubled or
//! trailing `/`) or a single `.` do not count; a leading `/` is the root and a
//! leading `.` stands for the current directory. The last component that
//! counts is the path's name, unless it is `..`.

use vstd::prelude::*;
use crate::text::{chars_of, concat2};

verus! {

/// `p` starts at the root.
pub open spec fn rooted(p: Seq<char>) -> bool {
    p.len() > 0 && p[0] == '/'
}

/// `p` starts with a `.` that stands for the current directory.
pub open spec fn leading_cur_dir(p: Seq<char>) -> bool {
    !rooted(p) && p.len() > 0 && p[0] == '.' && (p.len() == 1 || p[1] == '/')
}

/// How many leading characters of `p` belong to no component: the root `/` or
/// the leading `.`.
pub open spec fn body_start(p: Seq<char>) -> int {
    if rooted(p) || leading_cur_dir(p) {
        1
    } else {
        0
    }
}

/// `q` without the components at its end that do not count, each removed
/// together with the `/` before it. Characters before `floor` always stay.
pub open spec fn trimmed(q: Seq<char>, floor: int) -> Seq<char>
    decreases q.len(),
{
    let n = q.len() as int;
    if n <= floor || n == 0 {
        q
    } else if q[n - 1] == '/' {
        trimmed(q.take(n - 1), floor)
    } else if q[n - 1] == '.' && (n == 1 || q[n - 2] == '/') {
        trimmed(
            q.take(
                if n - 1 > floor && n >= 2 {
                    n - 2
                } else {
                    n - 1
                },
            ),
            floor,
        )
    } else {
        q
    }
}

/// Where the last component of `q` starts: one past its last `/`, or 0.
pub open spec fn component_start(q: Seq<char>) -> int
    decreases q.len(),
{
    if q.len() == 0 {
        0
    } else if q.last() == '/' {
        q.len() as int
    } else {
        component_start(q.drop_last())
    }
}

/// The name of `p`: its last component that counts. None where `p` has no
/// such component or where it is `..`.
pub open spec fn name_of(p: Seq<char>) -> Option<Seq<char>> {
    let kept = trimmed(p, body_start(p));
    if kept.len() <= body_start(p) {
        None
    } else {
        let name = kept.skip(component_start(kept));
        if name == seq!['.', '.'] {
            None
        } else {
            Some(name)
        }
    }
}

/// The index of the last `.` in `name`, or -1.
pub open spec fn last_dot(name: Seq<char>) -> int
    decreases name.len(),
{
    if name.len() == 0 {
        -1
    } else if name.last() == '.' {
        name.len() - 1
    } else {
        last_dot(name.drop_last())
    }
}

/// The extension of `p`: what follows the last `.` of its name. None where
/// `p` has no name, the name holds no `.`, or its only `.` is its first
/// character.
pub open spec fn extension_of(p: Seq<char>) -> Option<Seq<char>> {
    match name_of(p) {
        None => None,
        Some(name) => {
            if last_dot(name) <= 0 {
                None
            } else {
                Some(name.skip(last_dot(name) + 1))
            }
        },
    }
}

/// The directory that holds `p`: `p` without its last component that counts
/// and without what does not count before it. The empty path for a single
/// component or a lone `.`; None for the empty path and for the root.
pub open spec fn parent_of(p: Seq<char>) -> Option<Seq<char>> {
    let floor = body_start(p);
    let kept = trimmed(p, floor);
    if kept.len() <= floor {
        if leading_cur_dir(p) {
            Some(Seq::<char>::empty())
        } else {
            None
        }
    } else {
        let start = component_start(kept);
        Some(
            trimmed(
                kept.take(
                    if start > floor {
                        start - 1
                    } else {
                        start
                    },
                ),
                floor,
            ),
        )
    }
}

/// `rel` under `base`: `rel` alone where it starts at the root, else `base`
/// and `rel` with exactly one `/` added between them unless `base` is empty
/// or already ends in one.
pub open spec fn joined(base: Seq<char>, rel: Seq<char>) -> Seq<char> {
    if rooted(rel) {
        rel
    } else if base.len() > 0 && base.last() != '/' {
        base + seq!['/'] + rel
    } else {
        base + rel
    }
}

/// The component `..` stands at index `i` of `p`.
pub open spec fn parent_component_at(p: Seq<char>, i: int) -> bool {
    &&& 0 <= i
    &&& i + 2 <= p.len()
    &&& p[i] == '.'
    &&& p[i + 1] == '.'
    &&& (i == 0 || p[i - 1] == '/')
    &&& (i + 2 == p.len() || p[i + 2] == '/')
}

/// Some component of `p` is `..`: followed from a directory, `p` may leave
/// it.
pub open spec fn climbs(p: Seq<char>) -> bool {
    exists|i: int| parent_component_at(p, i)
}

/// The start of a component is within the path.
pub proof fn lemma_component_start_bounds(q: Seq<char>)
    ensures
        0 <= component_start(q) <= q.len(),
    decreases q.len(),
{
    if q.len() > 0 && q.last() != '/' {
        lemma_component_start_bounds(q.drop_last());
    }
}

fn scan_body_start(chars: &Vec<char>) -> (floor: usize)
    ensures
        floor == body_start(chars@),
        floor <= chars.len(),
{
    if chars.len() == 0 {
        0
    } else if chars[0] == '/' {
        1
    } else if chars[0] == '.' && (chars.len() == 1 || chars[1] == '/') {
        1
    } else {
        0
    }
}

fn scan_trimmed(chars: &Vec<char>, from: usize, floor: usize) -> (end: usize)
    requires
        from <= chars.len(),
    ensures
        end <= from,
        chars@.take(end as int) == trimmed(chars@.take(from as int), floor as int),
{
    let mut end: usize = from;
    while end > floor
        invariant
            end <= from <= chars.len(),
            trimmed(chars@.take(from as int), floor as int) == trimmed(
                chars@.take(end as int),
                floor as int,
            ),
        decreases end,
    {
        let ghost q = chars@.take(end as int);
        if chars[end - 1] == '/' {
            proof {
                assert(q.take(end - 1) =~= chars@.take(end - 1));
            }
            end -= 1;
        } else if chars[end - 1] == '.' && (end == 1 || chars[end - 2] == '/') {
            let cut: usize = if end - 1 > floor && end >= 2 {
                end - 2
            } else {
                end - 1
            };
            proof {
                assert(q.take(cut as int) =~= chars@.take(cut as int));
            }
            end = cut;
        } else {
            return end;
        }
    }
    end
}

fn scan_component_start(chars: &Vec<char>, end: usize) -> (start: usize)
    requires
        end <= chars.len(),
    ensures
        start <= end,
        start == component_start(chars@.take(end as int)),
{
    let mut start: usize = end;
    while start > 0 && chars[start - 1] != '/'
        invariant
            start <= end <= chars.len(),
            component_start(chars@.take(end as int)) == component_start(
                chars@.take(start as int),
            ),
        decreases start,
    {
        proof {
            assert(chars@.take(start as int).drop_last() =~= chars@.take(start - 1));
        }
        start -= 1;
    }
    start
}

/// The range of `chars` that holds the path's name.
fn scan_name(chars: &Vec<char>) -> (range: Option<(usize, usize)>)
    ensures
        match range {
            Some((start, end)) => start < end <= chars.len() && name_of(chars@) == Some(
                chars@.subrange(start as int, end as int),
            ),
            None => name_of(chars@) is None,
        },
{
    let floor = scan_body_start(chars);
    let end = scan_trimmed(chars, chars.len(), floor);
    proof {
        assert(chars@.take(chars.len() as int) =~= chars@);
    }
    if end <= floor {
        return None;
    }
    let start = scan_component_start(chars, end);
    proof {
        let kept = chars@.take(end as int);
        assert(kept.skip(start as int) =~= chars@.subrange(start as int, end as int));
        if start == end {
            lemma_component_start_bounds(kept.drop_last());
            assert(kept.last() == '/');
            lemma_trimmed_stops(chars@, floor as int);
        }
    }
    if end - start == 2 && chars[start] == '.' && chars[start + 1] == '.' {
        proof {
            assert(chars@.subrange(start as int, end as int) =~= seq!['.', '.']);
        }
        return None;
    }
    proof {
        let name = chars@.subrange(start as int, end as int);
        if name == seq!['.', '.'] {
            assert(name.len() == 2);
            assert(name[0] == '.' && name[1] == '.');
        }
    }
    Some((start, end))
}

/// What trimming leaves does not end in a component that does not count.
pub proof fn lemma_trimmed_stops(q: Seq<char>, floor: int)
    ensures
        ({
            let t = trimmed(q, floor);
            t.len() > floor && t.len() > 0 ==> t.last() != '/' && !(t.last() == '.' && (t.len() == 1
                || t[t.len() - 2] == '/'))
        }),
    decreases q.len(),
{
    let n = q.len() as int;
    if n <= floor || n == 0 {
    } else if q[n - 1] == '/' {
        lemma_trimmed_stops(q.take(n - 1), floor);
    } else if q[n - 1] == '.' && (n == 1 || q[n - 2] == '/') {
        let cut = if n - 1 > floor && n >= 2 {
            n - 2
        } else {
            n - 1
        };
        lemma_trimmed_stops(q.take(cut), floor);
    } else {
    }
}

/// The name of a path: its last component, where trailing `/` and `.`
/// components do not count. None for a path without one, and for one that
/// ends in `..`.
pub fn file_name(path: &str) -> (name: Option<String>)
    ensures
        name.deep_view() == name_of(path@),
{
    let chars = chars_of(path);
    match scan_name(&chars) {
        Some((start, end)) => Some(path.substring_char(start, end).to_owned()),
        None => None,
    }
}

/// The extension of a path: what follows the last `.` of its name. None where
/// there is no name, no `.` in it, or only one that starts it.
pub fn extension(path: &str) -> (ext: Option<String>)
    ensures
        ext.deep_view() == extension_of(path@),
{
    let chars = chars_of(path);
    match scan_name(&chars) {
        None => None,
        Some((start, end)) => {
            let ghost name = chars@.subrange(start as int, end as int);
            let mut after: usize = end;
            proof {
                assert(name.take(end - start) =~= name);
            }
            while after > start && chars[after - 1] != '.'
                invariant
                    start <= after <= end <= chars.len(),
                    name == chars@.subrange(start as int, end as int),
                    last_dot(name) == last_dot(name.take(after - start)),
                decreases after,
            {
                proof {
                    assert(name.take(after - start).drop_last() =~= name.take(after - start - 1));
                }
                after -= 1;
            }
            proof {
                assert(name.take(0) =~= Seq::<char>::empty());
                assert(name.take(name.len() as int) =~= name);
                if after > start {
                    assert(name.take(after - start).last() == '.');
                    assert(last_dot(name) == after - start - 1);
                }
            }
            if after <= start + 1 {
                None
            } else {
                proof {
                    assert(name.skip(after - start) =~= path@.subrange(after as int, end as int));
                }
                Some(path.substring_char(after, end).to_owned())
            }
        },
    }
}

/// The directory that holds a path. The empty path for a single component;
/// None for the empty path and for the root.
pub fn parent(path: &str) -> (dir: Option<String>)
    ensures
        dir.deep_view() == parent_of(path@),
{
    let chars = chars_of(path);
    let floor = scan_body_start(&chars);
    let end = scan_trimmed(&chars, chars.len(), floor);
    proof {
        assert(chars@.take(chars.len() as int) =~= chars@);
    }
    if end <= floor {
        if floor == 1 && chars[0] == '.' {
            return Some(String::new());
        }
        return None;
    }
    let start = scan_component_start(&chars, end);
    let cut: usize = if start > floor {
        start - 1
    } else {
        start
    };
    proof {
        assert(chars@.take(end as int).take(cut as int) =~= chars@.take(cut as int));
    }
    let stop = scan_trimmed(&chars, cut, floor);
    proof {
        assert(chars@.take(stop as int) =~= path@.subrange(0, stop as int));
    }
    Some(path.substring_char(0, stop).to_owned())
}

/// Whether some component of the path is `..`.
pub fn has_parent_component(path: &str) -> (found: bool)
    ensures
        found == climbs(path@),
{
    let chars = chars_of(path);
    if chars.len() < 2 {
        return false;
    }
    let mut i: usize = 0;
    while i <= chars.len() - 2
        invariant
            chars@ == path@,
            chars.len() >= 2,
            forall|k: int| 0 <= k < i ==> !parent_component_at(path@, k),
        decreases chars.len() - i,
    {
        if chars[i] == '.' && chars[i + 1] == '.' && (i == 0 || chars[i - 1] == '/') && (i + 2
            == chars.len() || chars[i + 2] == '/') {
            proof {
                assert(parent_component_at(path@, i as int));
            }
            return true;
        }
        i += 1;
    }
    false
}

/// `rel` under `base`. A `rel` that starts at the root replaces `base`.
pub fn join(base: &str, rel: &str) -> (path: String)
    ensures
        path@ == joined(base@, rel@),
{
    let b = chars_of(base);
    let r = chars_of(rel);
    if r.len() > 0 && r[0] == '/' {
        rel.to_owned()
    } else if b.len() > 0 && b[b.len() - 1] != '/' {
        proof {
            reveal_strlit("/");
            assert("/"@ =~= seq!['/']);
        }
        concat2(base, "/").concat(rel)
    } else {
        concat2(base, rel)
    }
}

} // verus!
