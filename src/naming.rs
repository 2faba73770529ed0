use crate::error::Error;
use vstd::prelude::*;

verus! {

pub open spec fn is_separator(c: char) -> bool {
    c == '/' || c == '\\'
}

/// Index where the last path component of `s` begins.
pub open spec fn name_start(s: Seq<char>) -> int
    decreases s.len(),
{
    if s.len() == 0 {
        0
    } else if is_separator(s.last()) {
        s.len() as int
    } else {
        name_start(s.drop_last())
    }
}

/// Index of the last `.` in `s`, or -1 when there is none.
pub open spec fn last_dot(s: Seq<char>) -> int
    decreases s.len(),
{
    if s.len() == 0 {
        -1
    } else if s.last() == '.' {
        s.len() - 1
    } else {
        last_dot(s.drop_last())
    }
}

/// The last path component of `s`.
pub open spec fn file_name(s: Seq<char>) -> Seq<char> {
    s.subrange(name_start(s), s.len() as int)
}

/// `s` ends in a file name: not empty, not `.` and not `..`.
pub open spec fn has_file_name(s: Seq<char>) -> bool {
    &&& file_name(s).len() > 0
    &&& file_name(s) != seq!['.']
    &&& file_name(s) != seq!['.', '.']
}

/// The file name has an extension: a `.` that is not its first character.
pub open spec fn has_extension(s: Seq<char>) -> bool {
    last_dot(s) > name_start(s)
}

/// `s` with an underscore inserted before the file name's extension, or appended
/// when it has none.
pub open spec fn marked_name(s: Seq<char>) -> Seq<char> {
    if has_extension(s) {
        s.subrange(0, last_dot(s)) + seq!['_'] + s.subrange(last_dot(s), s.len() as int)
    } else {
        s.push('_')
    }
}

proof fn lemma_name_start_bounds(s: Seq<char>)
    ensures
        0 <= name_start(s) <= s.len(),
        forall|i: int| name_start(s) <= i < s.len() ==> !is_separator(#[trigger] s[i]),
    decreases s.len(),
{
    if s.len() > 0 && !is_separator(s.last()) {
        let t = s.drop_last();
        lemma_name_start_bounds(t);
        assert forall|i: int| name_start(s) <= i < s.len() implies !is_separator(#[trigger] s[i]) by {
            if i < t.len() {
                assert(s[i] == t[i]);
            }
        }
    }
}

proof fn lemma_last_dot_bounds(s: Seq<char>)
    ensures
        -1 <= last_dot(s) < s.len(),
        last_dot(s) >= 0 ==> s[last_dot(s)] == '.',
        forall|i: int| last_dot(s) < i < s.len() ==> #[trigger] s[i] != '.',
    decreases s.len(),
{
    if s.len() > 0 && s.last() != '.' {
        let t = s.drop_last();
        lemma_last_dot_bounds(t);
        assert forall|i: int| last_dot(s) < i < s.len() implies #[trigger] s[i] != '.' by {
            if i < t.len() {
                assert(s[i] == t[i]);
            }
        }
    }
}

/// Appending text without separators leaves the last component's start in place.
proof fn lemma_name_start_append(a: Seq<char>, b: Seq<char>)
    requires
        forall|i: int| 0 <= i < b.len() ==> !is_separator(#[trigger] b[i]),
    ensures
        name_start(a + b) == name_start(a),
    decreases b.len(),
{
    if b.len() > 0 {
        assert((a + b).drop_last() =~= a + b.drop_last());
        lemma_name_start_append(a, b.drop_last());
    }
}

/// Marking keeps a file name: the result can be marked again, and every marking
/// gives a name that differs from the one it was made from, so repeated runs never
/// overwrite an earlier output.
pub proof fn lemma_marking_is_progressive(s: Seq<char>)
    requires
        has_file_name(s),
    ensures
        has_file_name(marked_name(s)),
        marked_name(s).len() == s.len() + 1,
        marked_name(s) != s,
        marked_name(marked_name(s)) != marked_name(s),
{
    let m = marked_name(s);
    let ns = name_start(s);
    lemma_name_start_bounds(s);
    lemma_last_dot_bounds(s);
    let u: int;
    if has_extension(s) {
        let p = last_dot(s);
        let tail = s.subrange(p, s.len() as int);
        assert(s =~= s.subrange(0, p) + tail);
        lemma_name_start_append(s.subrange(0, p), tail);
        let b = seq!['_'] + tail;
        assert(m =~= s.subrange(0, p) + b);
        lemma_name_start_append(s.subrange(0, p), b);
        u = p;
    } else {
        assert(m =~= s + seq!['_']);
        lemma_name_start_append(s, seq!['_']);
        u = s.len() as int;
    }
    assert(m[u] == '_');
    assert(name_start(m) == ns);
    let f = file_name(m);
    assert(f[u - ns] == '_');
    assert(f.len() == file_name(s).len() + 1);
    assert(f != seq!['.']) by {
        assert(f.len() >= 2);
    }
    assert(f != seq!['.', '.']) by {
        if f.len() == 2 {
            assert(seq!['.', '.'][u - ns] == '.');
        }
    }
    assert(m.len() == s.len() + 1);
    lemma_marking_keeps_length(m);
}

proof fn lemma_marking_keeps_length(s: Seq<char>)
    ensures
        marked_name(s).len() == s.len() + 1,
{
    lemma_last_dot_bounds(s);
    lemma_name_start_bounds(s);
}

fn is_separator_char(c: char) -> (r: bool)
    ensures
        r == is_separator(c),
{
    c == '/' || c == '\\'
}

/// Derives the default output file name: `video.mp4` becomes `video_.mp4`, `video`
/// becomes `video_`. Fails when the path ends without a file name.
pub fn add_underscore(input: &str) -> (r: Result<String, Error>)
    ensures
        !has_file_name(input@) ==> r == Err::<String, Error>(Error::InvalidFilename),
        has_file_name(input@) ==> (r matches Ok(out) && out@ == marked_name(input@)),
{
    let ghost s = input@;
    let n = input.unicode_len();
    let mut i: usize = 0;
    let mut start: usize = 0;
    let mut dot: usize = 0;
    let mut has_dot = false;
    assert(s.subrange(0, 0) =~= Seq::<char>::empty());
    while i < n
        invariant
            s == input@,
            n == s.len(),
            i <= n,
            start as int == name_start(s.subrange(0, i as int)),
            last_dot(s.subrange(0, i as int)) == if has_dot { dot as int } else { -1 },
        decreases n - i,
    {
        let c = input.get_char(i);
        assert(s.subrange(0, i + 1).drop_last() =~= s.subrange(0, i as int));
        assert(s.subrange(0, i + 1).last() == c);
        if is_separator_char(c) {
            start = i + 1;
        }
        if c == '.' {
            dot = i;
            has_dot = true;
        }
        i = i + 1;
    }
    assert(s.subrange(0, n as int) =~= s);
    proof {
        lemma_name_start_bounds(s);
        lemma_last_dot_bounds(s);
    }
    let ghost f = file_name(s);
    let len = n - start;
    if len == 0 {
        return Err(Error::InvalidFilename);
    }
    let first = input.get_char(start);
    assert(f[0] == first);
    if len == 1 && first == '.' {
        assert(f =~= seq!['.']);
        return Err(Error::InvalidFilename);
    }
    if len == 2 && first == '.' && input.get_char(start + 1) == '.' {
        assert(f =~= seq!['.', '.']);
        return Err(Error::InvalidFilename);
    }
    assert(f != seq!['.']) by {
        if len == 1 {
            assert(f[0] != seq!['.'][0]);
        }
    }
    assert(f != seq!['.', '.']) by {
        if len == 2 {
            assert(f[1] == s[start + 1]);
            assert(f[0] != seq!['.', '.'][0] || f[1] != seq!['.', '.'][1]);
        }
    }
    proof {
        reveal_strlit("_");
    }
    if has_dot && dot > start {
        let mut out = String::from_str(input.substring_char(0, dot));
        out.append("_");
        out.append(input.substring_char(dot, n));
        assert(out@ =~= marked_name(s));
        Ok(out)
    } else {
        let mut out = String::from_str(input);
        out.append("_");
        assert(out@ =~= marked_name(s));
        Ok(out)
    }
}

} // verus!
