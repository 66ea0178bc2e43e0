//! Unix path text: the final file name of a path, and joining two paths.
//!
//! Paths are strings whose components are separated by `/`. Empty components
//! and `.` components carry no name; a last component `..` names a parent,
//! not a file.

use vstd::prelude::*;

verus! {

/// Where the component that ends at `end` starts: just after the last `/`
/// before `end`, or at 0 when there is none.
pub open spec fn component_start(p: Seq<char>, end: int) -> int
    decreases end,
{
    if end <= 0 {
        0
    } else if p[end - 1] == '/' {
        end
    } else {
        component_start(p, end - 1)
    }
}

/// The start of a component lies between 0 and its end, just after a `/`.
pub proof fn lemma_component_start(p: Seq<char>, end: int)
    requires
        0 <= end <= p.len(),
    ensures
        0 <= component_start(p, end) <= end,
        component_start(p, end) > 0 ==> p[component_start(p, end) - 1] == '/',
        forall|i: int| component_start(p, end) <= i < end ==> p[i] != '/',
    decreases end,
{
    if end > 0 && p[end - 1] != '/' {
        lemma_component_start(p, end - 1);
    }
}

/// The file name of the part of `p` before `end`: its last component that is
/// neither empty nor `.`, unless that is `..`.
pub open spec fn name_before(p: Seq<char>, end: int) -> Option<Seq<char>>
    decreases end,
    when 0 <= end <= p.len()
{
    let start = component_start(p, end);
    let c = p.subrange(start, end);
    if c == ".."@ {
        None
    } else if c.len() == 0 || c == "."@ {
        if start == 0 {
            None
        } else {
            proof {
                lemma_component_start(p, end);
            }
            name_before(p, start - 1)
        }
    } else {
        Some(c)
    }
}

/// The file name of a path: its final component, if that is a name.
pub open spec fn file_name_of(p: Seq<char>) -> Option<Seq<char>> {
    name_before(p, p.len() as int)
}

/// A path that starts at the root.
pub open spec fn is_absolute(p: Seq<char>) -> bool {
    p.len() > 0 && p[0] == '/'
}

/// `p` taken relative to `base`: an absolute `p` stands alone, otherwise the
/// two are put together with one `/` between them.
pub open spec fn joined(base: Seq<char>, p: Seq<char>) -> Seq<char> {
    if is_absolute(p) {
        p
    } else if base.len() == 0 || base.last() == '/' {
        base + p
    } else {
        base + "/"@ + p
    }
}

/// Whether `s` holds exactly the characters of `lit`.
fn text_is(s: &str, lit: &str) -> (r: bool)
    ensures
        r == (s@ == lit@),
{
    let n = s.unicode_len();
    if n != lit.unicode_len() {
        return false;
    }
    let mut i: usize = 0;
    while i < n
        invariant
            n == s@.len() == lit@.len(),
            0 <= i <= n,
            forall|j: int| 0 <= j < i ==> s@[j] == lit@[j],
        decreases n - i,
    {
        if s.get_char(i) != lit.get_char(i) {
            return false;
        }
        i = i + 1;
    }
    assert(s@ =~= lit@);
    true
}

/// The final file name of `path`, or `None` where the path has none (it is
/// empty, the root, `.`, or ends in `..`).
pub fn file_name(path: &str) -> (r: Option<String>)
    ensures
        match r {
            Some(name) => file_name_of(path@) == Some(name@),
            None => file_name_of(path@) is None,
        },
{
    let n = path.unicode_len();
    let mut end: usize = n;
    loop
        invariant
            n == path@.len(),
            0 <= end <= n,
            name_before(path@, end as int) == file_name_of(path@),
        decreases end,
    {
        let mut start: usize = end;
        while start > 0 && path.get_char(start - 1) != '/'
            invariant
                n == path@.len(),
                0 <= start <= end <= n,
                component_start(path@, start as int) == component_start(path@, end as int),
            decreases start,
        {
            start = start - 1;
        }
        proof {
            lemma_component_start(path@, end as int);
        }
        let c = path.substring_char(start, end);
        if text_is(c, "..") {
            return None;
        }
        if c.unicode_len() == 0 || text_is(c, ".") {
            if start == 0 {
                return None;
            }
            end = start - 1;
        } else {
            return Some(c.to_owned());
        }
    }
}

/// `p` taken relative to `base`, as `PathBuf::join` does on Unix.
pub fn join(base: &str, p: &str) -> (r: String)
    ensures
        r@ == joined(base@, p@),
{
    let starts_at_root = p.unicode_len() > 0 && p.get_char(0) == '/';
    if starts_at_root {
        return p.to_owned();
    }
    let n = base.unicode_len();
    let mut r = base.to_owned();
    if n > 0 && base.get_char(n - 1) != '/' {
        r.append("/");
    }
    r.append(p);
    r
}

} // verus!
