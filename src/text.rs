use vstd::prelude::*;
use vstd::string::*;

verus! {

/// Characters that separate the paths inside a type reference such as
/// `core::result::Result::<core::integer::u64, core::felt252>`.
pub open spec fn is_delim(c: char) -> bool {
    c == '<' || c == '>' || c == ',' || c == ' ' || c == '(' || c == ')'
}

/// End (exclusive) of the run of non-separator characters starting at `i`.
pub open spec fn seg_end(s: Seq<char>, i: int) -> int
    decreases s.len() - i,
{
    if i < 0 || i >= s.len() || is_delim(s[i]) {
        i
    } else {
        seg_end(s, i + 1)
    }
}

pub proof fn lemma_seg_end(s: Seq<char>, i: int)
    requires
        0 <= i <= s.len(),
    ensures
        i <= seg_end(s, i) <= s.len(),
        i < s.len() && !is_delim(s[i]) ==> i < seg_end(s, i),
        seg_end(s, i) < s.len() ==> is_delim(s[seg_end(s, i)]),
    decreases s.len() - i,
{
    if i < s.len() && !is_delim(s[i]) {
        lemma_seg_end(s, i + 1);
    }
}

/// Whether a path begins at `i`.
pub open spec fn is_seg_start(s: Seq<char>, i: int) -> bool {
    0 <= i < s.len() && !is_delim(s[i]) && (i == 0 || is_delim(s[i - 1]))
}

pub proof fn lemma_seg_run(s: Seq<char>, i: int)
    requires
        0 <= i <= s.len(),
    ensures
        forall|k: int| i <= k < seg_end(s, i) ==> !is_delim(#[trigger] s[k]),
    decreases s.len() - i,
{
    if i < s.len() && !is_delim(s[i]) {
        lemma_seg_run(s, i + 1);
    }
}

/// The number of top-level arguments in a generic argument list whose
/// opening `<` precedes `j`, scanning with `depth` argument lists and tuples
/// open inside it and
/// `commas` top-level commas seen; `None` if the list is never closed.
pub open spec fn arg_count(s: Seq<char>, j: int, depth: nat, commas: nat) -> Option<nat>
    decreases s.len() - j,
{
    if j < 0 || j >= s.len() {
        None
    } else if s[j] == '<' || s[j] == '(' {
        arg_count(s, j + 1, depth + 1, commas)
    } else if s[j] == ')' {
        if depth == 0 {
            None
        } else {
            arg_count(s, j + 1, (depth - 1) as nat, commas)
        }
    } else if s[j] == '>' {
        if depth == 0 {
            Some(commas + 1)
        } else {
            arg_count(s, j + 1, (depth - 1) as nat, commas)
        }
    } else if s[j] == ',' && depth == 0 {
        arg_count(s, j + 1, depth, commas + 1)
    } else {
        arg_count(s, j + 1, depth, commas)
    }
}

/// Counts the top-level arguments of the generic list that starts after `j`.
pub fn arg_count_exec(s: &str, j: usize) -> (r: Option<usize>)
    requires
        j <= s@.len(),
    ensures
        match r {
            Some(c) => arg_count(s@, j as int, 0, 0) == Some(c as nat),
            None => arg_count(s@, j as int, 0, 0) is None,
        },
{
    let n = s.unicode_len();
    let mut k = j;
    let mut depth: usize = 0;
    let mut commas: usize = 0;
    while k < n
        invariant
            n == s@.len(),
            j <= k <= n,
            depth <= k,
            commas <= k,
            arg_count(s@, j as int, 0, 0) == arg_count(s@, k as int, depth as nat, commas as nat),
        decreases n - k,
    {
        let c = s.get_char(k);
        if c == '<' || c == '(' {
            depth = depth + 1;
        } else if c == ')' {
            if depth == 0 {
                return None;
            }
            depth = depth - 1;
        } else if c == '>' {
            if depth == 0 {
                return Some(commas + 1);
            }
            depth = depth - 1;
        } else if c == ',' && depth == 0 {
            commas = commas + 1;
        }
        k = k + 1;
    }
    None
}

/// A path with a trailing `::` (the turbofish before generic arguments) removed.
pub open spec fn strip_turbofish(p: Seq<char>) -> Seq<char> {
    if p.len() >= 2 && p[p.len() - 1] == ':' && p[p.len() - 2] == ':' {
        p.subrange(0, p.len() - 2)
    } else {
        p
    }
}

/// The path that starts at `i`, without its turbofish.
pub open spec fn path_at(s: Seq<char>, i: int) -> Seq<char> {
    strip_turbofish(s.subrange(i, seg_end(s, i)))
}

/// The key under which a declared struct or enum is known: the head of its
/// path, without a turbofish or type arguments (`pkg::W::<T>` is `pkg::W`).
pub open spec fn decl_key(p: Seq<char>) -> Seq<char> {
    path_at(p, 0)
}

/// The head of a declared path.
pub fn decl_key_exec(p: &str) -> (r: String)
    ensures
        r@ == decl_key(p@),
{
    proof {
        lemma_seg_end(p@, 0);
    }
    let j = seg_end_exec(p, 0);
    path_slice(p, 0, j)
}

/// Start of the text that follows the last `::` among the first `i` characters.
pub open spec fn last_seg_start(p: Seq<char>, i: int) -> int
    decreases i,
{
    if i < 2 {
        0
    } else if p[i - 1] == ':' && p[i - 2] == ':' {
        i
    } else {
        last_seg_start(p, i - 1)
    }
}

/// The final segment of a path: the text after its last `::`.
pub open spec fn last_segment(p: Seq<char>) -> Seq<char> {
    p.subrange(last_seg_start(p, p.len() as int), p.len() as int)
}

/// Compares two strings character by character.
pub fn str_eq(a: &str, b: &str) -> (r: bool)
    ensures
        r == (a@ == b@),
{
    let n = a.unicode_len();
    if n != b.unicode_len() {
        return false;
    }
    let mut i: usize = 0;
    while i < n
        invariant
            n == a@.len(),
            n == b@.len(),
            0 <= i <= n,
            a@.subrange(0, i as int) == b@.subrange(0, i as int),
        decreases n - i,
    {
        if a.get_char(i) != b.get_char(i) {
            return false;
        }
        assert(a@.subrange(0, i + 1) == a@.subrange(0, i as int).push(a@[i as int]));
        assert(b@.subrange(0, i + 1) == b@.subrange(0, i as int).push(b@[i as int]));
        i = i + 1;
    }
    assert(a@ == a@.subrange(0, n as int));
    assert(b@ == b@.subrange(0, n as int));
    true
}

/// Index one past the path segment that starts at `i`.
pub fn seg_end_exec(s: &str, i: usize) -> (r: usize)
    requires
        i <= s@.len(),
    ensures
        r == seg_end(s@, i as int),
{
    let n = s.unicode_len();
    let mut j = i;
    while j < n && !is_delim_exec(s.get_char(j))
        invariant
            n == s@.len(),
            i <= j <= n,
            seg_end(s@, i as int) == seg_end(s@, j as int),
        decreases n - j,
    {
        j = j + 1;
    }
    j
}

pub fn is_delim_exec(c: char) -> (r: bool)
    ensures
        r == is_delim(c),
{
    c == '<' || c == '>' || c == ',' || c == ' ' || c == '(' || c == ')'
}

/// The path `s[i..j]` with a trailing `::` removed.
pub fn path_slice(s: &str, i: usize, j: usize) -> (r: String)
    requires
        i <= j <= s@.len(),
    ensures
        r@ == strip_turbofish(s@.subrange(i as int, j as int)),
{
    if j - i >= 2 && s.get_char(j - 1) == ':' && s.get_char(j - 2) == ':' {
        String::from_str(s.substring_char(i, j - 2))
    } else {
        String::from_str(s.substring_char(i, j))
    }
}

/// The text after the last `::` of a path.
pub fn last_segment_exec(p: &str) -> (r: String)
    ensures
        r@ == last_segment(p@),
{
    let n = p.unicode_len();
    let mut i = n;
    while i >= 2 && !(p.get_char(i - 1) == ':' && p.get_char(i - 2) == ':')
        invariant
            n == p@.len(),
            0 <= i <= n,
            last_seg_start(p@, i as int) == last_seg_start(p@, n as int),
        decreases i,
    {
        i = i - 1;
    }
    if i < 2 {
        i = 0;
    }
    String::from_str(p.substring_char(i, n))
}

} // verus!
