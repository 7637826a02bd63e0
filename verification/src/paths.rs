//! Windows path rules used by the program: appending a component to a directory
//! and taking the last component of a path, for ordinary and verbatim (`\\?\...`)
//! paths alike.
use vstd::prelude::*;
use crate::text::push_char;

verus! {

/// A path separator: backslash or forward slash.
pub open spec fn is_separator(c: char) -> bool {
    c == '\\' || c == '/'
}

/// A verbatim path: one that starts with `\\?\`, written with backslashes.
pub open spec fn is_verbatim(p: Seq<char>) -> bool {
    &&& p.len() >= 4
    &&& p[0] == '\\'
    &&& p[1] == '\\'
    &&& p[2] == '?'
    &&& p[3] == '\\'
}

/// An ASCII letter, as a drive letter is.
pub open spec fn is_drive_letter(c: char) -> bool {
    ('A' <= c && c <= 'Z') || ('a' <= c && c <= 'z')
}

/// A path made of a drive alone, such as `C:`.
pub open spec fn is_bare_drive(p: Seq<char>) -> bool {
    p.len() == 2 && is_drive_letter(p[0]) && p[1] == ':'
}

/// A single path component: nonempty, with no separator and no drive colon.
pub open spec fn is_plain_component(name: Seq<char>) -> bool {
    &&& name.len() > 0
    &&& forall|i: int| 0 <= i < name.len() ==> !is_separator(#[trigger] name[i]) && name[i] != ':'
}

/// What goes before an appended component. For a verbatim base: its prefix, a
/// backslash, and each of its components followed by a backslash. Otherwise: the
/// base, followed by a backslash unless it is empty, already ends in a separator,
/// or is a bare drive.
pub open spec fn join_prefix(base: Seq<char>) -> Seq<char> {
    if is_verbatim(base) {
        base.subrange(0, prefix_len(base)) + seq!['\\'] + kept_components(base, name_start(base), false)
    } else if base.len() == 0 || is_separator(base.last()) || is_bare_drive(base) {
        base
    } else {
        base.push('\\')
    }
}

/// `base` with the component `name` appended.
pub open spec fn path_join(base: Seq<char>, name: Seq<char>) -> Seq<char> {
    join_prefix(base) + name
}

/// A separator under a path's rules: in a verbatim path only the backslash, in
/// any other path either slash.
pub open spec fn is_sep_in(verbatim: bool, c: char) -> bool {
    if verbatim {
        c == '\\'
    } else {
        is_separator(c)
    }
}

/// The position where the component that ends at `i` starts: just after the
/// nearest separator before `i`, but not before `lo`.
pub open spec fn segment_start(p: Seq<char>, v: bool, lo: int, i: int) -> int
    decreases i - lo,
{
    if i <= lo || is_sep_in(v, p[i - 1]) {
        i
    } else {
        segment_start(p, v, lo, i - 1)
    }
}

/// The position where the component that starts at `i` ends: the next separator,
/// or the end of the path.
pub open spec fn segment_end(p: Seq<char>, v: bool, i: int) -> int
    decreases p.len() - i,
{
    if i >= p.len() || i < 0 || is_sep_in(v, p[i]) {
        i
    } else {
        segment_end(p, v, i + 1)
    }
}

/// Length of the prefix of a verbatim path: `\\?\UNC\server\share` (the share
/// where there is one), `\\?\X:` where the drive is followed by a separator or
/// nothing, or otherwise `\\?\` and the name up to the next backslash.
pub open spec fn verbatim_prefix_len(p: Seq<char>) -> int {
    if p.len() >= 8 && p[4] == 'U' && p[5] == 'N' && p[6] == 'C' && is_separator(p[7]) {
        let server_end = segment_end(p, true, 8);
        if server_end < p.len() && segment_end(p, true, server_end + 1) > server_end + 1 {
            segment_end(p, true, server_end + 1)
        } else {
            server_end
        }
    } else if p.len() >= 6 && is_drive_letter(p[4]) && p[5] == ':' && (p.len() == 6 || is_separator(p[6])) {
        6
    } else {
        segment_end(p, true, 4)
    }
}

/// Length of the prefix of a path: the verbatim forms; `\\.\device`;
/// `\\server\share` (both names nonempty); a drive `X:`; or nothing.
pub open spec fn prefix_len(p: Seq<char>) -> int {
    if is_verbatim(p) {
        verbatim_prefix_len(p)
    } else if p.len() >= 2 && is_separator(p[0]) && is_separator(p[1]) {
        if p.len() >= 4 && p[2] == '.' && is_separator(p[3]) {
            segment_end(p, false, 4)
        } else {
            let server_end = segment_end(p, false, 2);
            if 2 < server_end < p.len() && segment_end(p, false, server_end + 1) > server_end + 1 {
                segment_end(p, false, server_end + 1)
            } else {
                0
            }
        }
    } else if p.len() >= 2 && is_drive_letter(p[0]) && p[1] == ':' {
        2
    } else {
        0
    }
}

/// Where the components of a path start: after the prefix, and in a verbatim path
/// after the root separator that follows it, if any.
pub open spec fn name_start(p: Seq<char>) -> int {
    let k = prefix_len(p);
    if is_verbatim(p) && k < p.len() && is_separator(p[k]) {
        k + 1
    } else {
        k
    }
}

/// The last component of `p[lo..end)` that names a file or directory: empty
/// components are passed over, and `.` too outside verbatim paths; `..`, a
/// verbatim `.`, or no component at all gives none.
pub open spec fn last_name(p: Seq<char>, v: bool, lo: int, end: int) -> Option<Seq<char>>
    decreases end - lo,
{
    if end <= lo {
        None
    } else {
        let start = segment_start(p, v, lo, end);
        let seg = p.subrange(start, end);
        if seg.len() == 0 || (!v && seg == seq!['.']) {
            if lo < start <= end {
                last_name(p, v, lo, start - 1)
            } else {
                None
            }
        } else if seg == seq!['.'] || seg == seq!['.', '.'] {
            None
        } else {
            Some(seg)
        }
    }
}

/// The file name of a path (`Path::file_name` on Windows): its last component
/// after the prefix, where that is a name.
pub open spec fn file_name_spec(p: Seq<char>) -> Option<Seq<char>> {
    last_name(p, is_verbatim(p), name_start(p), p.len() as int)
}

/// The components of a verbatim path from position `i` on, each followed by a
/// backslash: runs of backslashes collapse and empty components disappear.
/// `in_component` says whether `i` lies inside a component.
pub open spec fn kept_components(p: Seq<char>, i: int, in_component: bool) -> Seq<char>
    decreases p.len() - i,
{
    if i < 0 || i >= p.len() {
        if in_component { seq!['\\'] } else { Seq::empty() }
    } else if p[i] == '\\' {
        (if in_component { seq!['\\'] } else { Seq::empty() }) + kept_components(p, i + 1, false)
    } else {
        seq![p[i]] + kept_components(p, i + 1, true)
    }
}

proof fn lemma_segment_end_bounds(p: Seq<char>, v: bool, i: int)
    requires
        0 <= i <= p.len(),
    ensures
        i <= segment_end(p, v, i) <= p.len(),
        segment_end(p, v, i) < p.len() ==> is_sep_in(v, p[segment_end(p, v, i)]),
        forall|k: int| i <= k < segment_end(p, v, i) ==> !is_sep_in(v, #[trigger] p[k]),
    decreases p.len() - i,
{
    if i < p.len() && !is_sep_in(v, p[i]) {
        lemma_segment_end_bounds(p, v, i + 1);
    }
}

proof fn lemma_segment_start_at(p: Seq<char>, v: bool, lo: int, k: int, end: int)
    requires
        lo <= k <= end <= p.len(),
        forall|i: int| k <= i < end ==> !is_sep_in(v, #[trigger] p[i]),
        k == lo || (k > lo && is_sep_in(v, p[k - 1])),
    ensures
        segment_start(p, v, lo, end) == k,
    decreases end - k,
{
    if end > k {
        lemma_segment_start_at(p, v, lo, k, end - 1);
    }
}

proof fn lemma_prefix_len_bounds(p: Seq<char>)
    ensures
        0 <= prefix_len(p) <= name_start(p) <= p.len(),
        is_verbatim(p) ==> prefix_len(p) >= 4,
{
    if p.len() >= 8 {
        lemma_segment_end_bounds(p, true, 8);
        let se = segment_end(p, true, 8);
        if se < p.len() {
            lemma_segment_end_bounds(p, true, se + 1);
        }
    }
    if p.len() >= 4 {
        lemma_segment_end_bounds(p, true, 4);
        lemma_segment_end_bounds(p, false, 4);
    }
    if p.len() >= 2 {
        lemma_segment_end_bounds(p, false, 2);
        let se = segment_end(p, false, 2);
        if 2 < se < p.len() {
            lemma_segment_end_bounds(p, false, se + 1);
        }
    }
}

proof fn lemma_kept_components_ends(p: Seq<char>, i: int, in_component: bool)
    ensures
        kept_components(p, i, in_component).len() == 0
            || kept_components(p, i, in_component).last() == '\\',
    decreases p.len() - i,
{
    if 0 <= i < p.len() {
        if p[i] == '\\' {
            lemma_kept_components_ends(p, i + 1, false);
        } else {
            lemma_kept_components_ends(p, i + 1, true);
        }
    }
}

/// The file name of a directory path joined with a name is that name, where the
/// name is neither `.` nor `..` and the prefix of the joined path (a drive, a
/// network share, a device or a verbatim prefix) ends before the name.
pub proof fn law_file_name_of_joined(base: Seq<char>, name: Seq<char>)
    requires
        is_plain_component(name),
        name != seq!['.'],
        name != seq!['.', '.'],
        name_start(path_join(base, name)) <= join_prefix(base).len(),
    ensures
        file_name_spec(path_join(base, name)) == Some(name),
{
    let q = join_prefix(base);
    let p = path_join(base, name);
    let v = is_verbatim(p);
    let lo = name_start(p);
    lemma_prefix_len_bounds(p);
    lemma_prefix_len_bounds(base);
    assert forall|i: int| q.len() <= i < p.len() implies !is_sep_in(v, #[trigger] p[i]) by {
        assert(p[i] == name[i - q.len()]);
    }
    if is_verbatim(base) {
        lemma_kept_components_ends(base, name_start(base), false);
        assert(q.last() == '\\');
        assert(p[0] == q[0] && p[1] == q[1] && p[2] == q[2] && p[3] == q[3]);
        assert(q[0] == base[0] && q[1] == base[1] && q[2] == base[2] && q[3] == base[3]);
        assert(v);
        assert(p[q.len() - 1] == q.last());
    } else if v {
        // Only the base `\\?` turns verbatim when joined, and then the name lies
        // inside the verbatim prefix.
        assert(p[3] == '\\');
        if base.len() >= 4 {
            assert(p[0] == base[0] && p[1] == base[1] && p[2] == base[2] && p[3] == base[3]);
        }
        if q.len() <= 3 {
            assert(p[3] == name[3 - q.len()]);
        }
        assert(q.len() == 4);
        assert(!(p.len() >= 6 && is_drive_letter(p[4]) && p[5] == ':')) by {
            if p.len() >= 6 {
                assert(p[5] == name[1]);
            }
        }
        assert(!(p.len() >= 8 && is_separator(p[7]))) by {
            if p.len() >= 8 {
                assert(p[7] == name[3]);
            }
        }
        lemma_segment_end_bounds(p, true, 4);
        assert(segment_end(p, true, 4) == p.len());
        assert(false);
    } else if q.len() > lo {
        assert(is_separator(p[q.len() - 1])) by {
            assert(p[q.len() - 1] == q[q.len() - 1]);
            if !(base.len() == 0 || is_separator(base.last()) || is_bare_drive(base)) {
                assert(q[q.len() - 1] == '\\');
            } else if is_bare_drive(base) {
                assert(p[0] == base[0] && p[1] == base[1]);
                assert(!is_separator(p[0]));
            }
        }
    }
    lemma_segment_start_at(p, v, lo, q.len() as int, p.len() as int);
    assert(p.subrange(q.len() as int, p.len() as int) =~= name);
}

fn is_separator_char(c: char) -> (r: bool)
    ensures
        r == is_separator(c),
{
    c == '\\' || c == '/'
}

fn is_sep_in_char(v: bool, c: char) -> (r: bool)
    ensures
        r == is_sep_in(v, c),
{
    if v {
        c == '\\'
    } else {
        c == '\\' || c == '/'
    }
}

fn is_drive_letter_char(c: char) -> (r: bool)
    ensures
        r == is_drive_letter(c),
{
    ('A' <= c && c <= 'Z') || ('a' <= c && c <= 'z')
}

fn is_verbatim_chars(p: &Vec<char>) -> (r: bool)
    ensures
        r == is_verbatim(p@),
{
    p.len() >= 4 && p[0] == '\\' && p[1] == '\\' && p[2] == '?' && p[3] == '\\'
}

/// The characters of a string, one per element.
fn chars_of(s: &str) -> (v: Vec<char>)
    ensures
        v@ == s@,
{
    let n = s.unicode_len();
    let mut v: Vec<char> = Vec::new();
    let mut i: usize = 0;
    while i < n
        invariant
            i <= n,
            n == s@.len(),
            v@ == s@.take(i as int),
        decreases n - i,
    {
        v.push(s.get_char(i));
        i += 1;
        assert(v@ =~= s@.take(i as int));
    }
    assert(s@.take(n as int) =~= s@);
    v
}

/// The string made of `v[from..to)`.
fn string_of(v: &Vec<char>, from: usize, to: usize) -> (s: String)
    requires
        from <= to <= v@.len(),
    ensures
        s@ == v@.subrange(from as int, to as int),
{
    let mut s = String::new();
    let mut i = from;
    while i < to
        invariant
            from <= i <= to,
            to <= v@.len(),
            s@ == v@.subrange(from as int, i as int),
        decreases to - i,
    {
        push_char(&mut s, v[i]);
        i += 1;
        assert(s@ =~= v@.subrange(from as int, i as int));
    }
    s
}

/// The end of the component that starts at `i`.
fn find_segment_end(p: &Vec<char>, v: bool, i: usize) -> (r: usize)
    requires
        i <= p@.len(),
    ensures
        r == segment_end(p@, v, i as int),
{
    let mut j = i;
    while j < p.len() && !is_sep_in_char(v, p[j])
        invariant
            i <= j <= p@.len(),
            segment_end(p@, v, j as int) == segment_end(p@, v, i as int),
        decreases p@.len() - j,
    {
        j += 1;
    }
    j
}

fn find_prefix_len(p: &Vec<char>) -> (r: usize)
    ensures
        r == prefix_len(p@),
{
    let n = p.len();
    if is_verbatim_chars(p) {
        if n >= 8 && p[4] == 'U' && p[5] == 'N' && p[6] == 'C' && is_separator_char(p[7]) {
            let server_end = find_segment_end(p, true, 8);
            if server_end < n {
                let share_end = find_segment_end(p, true, server_end + 1);
                if share_end > server_end + 1 {
                    share_end
                } else {
                    server_end
                }
            } else {
                server_end
            }
        } else if n >= 6 && is_drive_letter_char(p[4]) && p[5] == ':' && (n == 6 || is_separator_char(p[6])) {
            6
        } else {
            find_segment_end(p, true, 4)
        }
    } else if n >= 2 && is_separator_char(p[0]) && is_separator_char(p[1]) {
        if n >= 4 && p[2] == '.' && is_separator_char(p[3]) {
            find_segment_end(p, false, 4)
        } else {
            let server_end = find_segment_end(p, false, 2);
            if 2 < server_end && server_end < n {
                let share_end = find_segment_end(p, false, server_end + 1);
                if share_end > server_end + 1 {
                    share_end
                } else {
                    0
                }
            } else {
                0
            }
        }
    } else if n >= 2 && is_drive_letter_char(p[0]) && p[1] == ':' {
        2
    } else {
        0
    }
}

fn find_name_start(p: &Vec<char>) -> (r: usize)
    ensures
        r == name_start(p@),
{
    let k = find_prefix_len(p);
    proof {
        lemma_prefix_len_bounds(p@);
    }
    if is_verbatim_chars(p) && k < p.len() && is_separator_char(p[k]) {
        k + 1
    } else {
        k
    }
}

/// Appends the component `name` to the directory path `base` by the Windows rule
/// (`PathBuf::push`): a verbatim base is rebuilt from its prefix and components.
pub fn join_component(base: &str, name: &str) -> (r: String)
    requires
        is_plain_component(name@),
    ensures
        r@ == path_join(base@, name@),
{
    let b = chars_of(base);
    let n = b.len();
    if is_verbatim_chars(&b) {
        let plen = find_prefix_len(&b);
        let start = find_name_start(&b);
        proof {
            lemma_prefix_len_bounds(b@);
        }
        let mut out = string_of(&b, 0, plen);
        push_char(&mut out, '\\');
        let ghost target = b@.subrange(0, plen as int) + seq!['\\'] + kept_components(b@, start as int, false);
        let mut i = start;
        let mut inside = false;
        while i < n
            invariant
                n == b@.len(),
                i <= n,
                out@ + kept_components(b@, i as int, inside) == target,
            decreases n - i,
        {
            let c = b[i];
            if c == '\\' {
                if inside {
                    push_char(&mut out, '\\');
                }
                inside = false;
            } else {
                push_char(&mut out, c);
                inside = true;
            }
            i += 1;
            assert(out@ + kept_components(b@, i as int, inside) =~= target);
        }
        if inside {
            push_char(&mut out, '\\');
        }
        assert(out@ =~= target);
        out.append(name);
        out
    } else {
        let needs_sep = if n == 0 {
            false
        } else if is_separator_char(b[n - 1]) {
            false
        } else {
            !(n == 2 && is_drive_letter_char(b[0]) && b[1] == ':')
        };
        let mut out = String::from_str(base);
        if needs_sep {
            push_char(&mut out, '\\');
        }
        out.append(name);
        out
    }
}

/// The file name of a path (`Path::file_name` on Windows): its last component after
/// the prefix, or `None` where the path ends in `..` (or, in a verbatim path, in
/// `.`) or has no component after its prefix and root.
pub fn file_name(path: &str) -> (r: Option<String>)
    ensures
        match r {
            Some(s) => file_name_spec(path@) == Some(s@),
            None => file_name_spec(path@) is None,
        },
{
    let p = chars_of(path);
    let v = is_verbatim_chars(&p);
    let lo = find_name_start(&p);
    proof {
        lemma_prefix_len_bounds(p@);
    }
    let mut end = p.len();
    while end > lo
        invariant
            p@ == path@,
            v == is_verbatim(p@),
            lo <= p@.len(),
            lo as int == name_start(p@),
            lo <= end <= p@.len(),
            last_name(p@, v, lo as int, end as int) == file_name_spec(p@),
        decreases end,
    {
        let mut start = end;
        while start > lo && !is_sep_in_char(v, p[start - 1])
            invariant
                lo <= start <= end,
                end <= p@.len(),
                segment_start(p@, v, lo as int, start as int) == segment_start(p@, v, lo as int, end as int),
            decreases start,
        {
            start -= 1;
        }
        let ghost seg = p@.subrange(start as int, end as int);
        let len = end - start;
        let dot = len == 1 && p[start] == '.';
        let dots = len == 2 && p[start] == '.' && p[start + 1] == '.';
        proof {
            if dot {
                assert(seg =~= seq!['.']);
            }
            if dots {
                assert(seg =~= seq!['.', '.']);
            }
            if len == 1 && !dot {
                assert(seg[0] == p@[start as int]);
            }
            if len == 2 && !dots {
                assert(seg[0] == p@[start as int]);
                assert(seg[1] == p@[start + 1]);
            }
        }
        if len == 0 || (!v && dot) {
            if start > lo {
                end = start - 1;
            } else {
                return None;
            }
        } else if dot || dots {
            return None;
        } else {
            return Some(string_of(&p, start, end));
        }
    }
    None
}

} // verus!
