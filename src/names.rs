use vstd::prelude::*;
use vstd::string::*;

use crate::category::{builtin, lookup_builtin};
use crate::text::{
    is_delim, is_delim_exec, last_segment, last_segment_exec, lemma_seg_end, path_at, path_slice,
    seg_end, seg_end_exec,
};

verus! {

/// The name that an alias list gives to a path: its first entry for that path.
pub open spec fn alias_of(al: Seq<(String, String)>, p: Seq<char>) -> Option<Seq<char>>
    decreases al.len(),
{
    if al.len() == 0 {
        None
    } else if al[0].0@ == p {
        Some(al[0].1@)
    } else {
        alias_of(al.drop_first(), p)
    }
}

/// The identifier that generated code uses for a path: the bound type of a
/// catalogued path, else its alias, else its final segment.
pub open spec fn name_of(p: Seq<char>, al: Seq<(String, String)>) -> Seq<char> {
    match builtin(p) {
        Some(b) => b.1,
        None => match alias_of(al, p) {
            Some(a) => a,
            None => last_segment(p),
        },
    }
}

/// A type reference rendered from position `i` on: each path replaced by its
/// generated name, separators kept.
pub open spec fn render_from(s: Seq<char>, i: int, al: Seq<(String, String)>) -> Seq<char>
    decreases s.len() - i
    via render_from_decreases
{
    if i < 0 || i >= s.len() {
        Seq::empty()
    } else if is_delim(s[i]) {
        seq![s[i]] + render_from(s, i + 1, al)
    } else {
        name_of(path_at(s, i), al) + render_from(s, seg_end(s, i), al)
    }
}

#[via_fn]
proof fn render_from_decreases(s: Seq<char>, i: int, al: Seq<(String, String)>) {
    if 0 <= i < s.len() && !is_delim(s[i]) {
        lemma_seg_end(s, i);
    }
}

/// A whole type reference as generated code writes it.
pub open spec fn render_type(s: Seq<char>, al: Seq<(String, String)>) -> Seq<char> {
    render_from(s, 0, al)
}

pub fn alias_lookup(al: &Vec<(String, String)>, p: &str) -> (r: Option<String>)
    ensures
        match r {
            Some(a) => alias_of(al@, p@) == Some(a@),
            None => alias_of(al@, p@) is None,
        },
{
    let n = al.len();
    let mut i: usize = 0;
    assert(al@.subrange(0, n as int) == al@);
    while i < n
        invariant
            n == al@.len(),
            0 <= i <= n,
            alias_of(al@, p@) == alias_of(al@.subrange(i as int, n as int), p@),
        decreases n - i,
    {
        assert(al@.subrange(i as int, n as int).drop_first() == al@.subrange(i + 1, n as int));
        if str_eq_string(&al[i].0, p) {
            return Some(al[i].1.clone());
        }
        i = i + 1;
    }
    None
}

fn str_eq_string(a: &String, b: &str) -> (r: bool)
    ensures
        r == (a@ == b@),
{
    crate::text::str_eq(a.as_str(), b)
}

/// The identifier that generated code uses for the path `p`.
pub fn path_name(p: &str, al: &Vec<(String, String)>) -> (r: String)
    ensures
        r@ == name_of(p@, al@),
{
    match lookup_builtin(p) {
        Some(b) => String::from_str(b.1),
        None => match alias_lookup(al, p) {
            Some(a) => a,
            None => last_segment_exec(p),
        },
    }
}

/// Renders a type reference, resolving every path in it, at any depth of
/// generic arguments, to its generated name.
pub fn render_type_exec(s: &str, al: &Vec<(String, String)>) -> (r: String)
    ensures
        r@ == render_type(s@, al@),
{
    let n = s.unicode_len();
    let mut out = String::new();
    let mut i: usize = 0;
    while i < n
        invariant
            n == s@.len(),
            0 <= i <= n,
            out@ + render_from(s@, i as int, al@) == render_type(s@, al@),
        decreases n - i,
    {
        let c = s.get_char(i);
        if is_delim_exec(c) {
            let cs = s.substring_char(i, i + 1);
            assert(cs@ == seq![s@[i as int]]);
            out.append(cs);
            assert(out@ + render_from(s@, i + 1, al@) == render_type(s@, al@));
            i = i + 1;
        } else {
            proof {
                lemma_seg_end(s@, i as int);
            }
            let j = seg_end_exec(s, i);
            let p = path_slice(s, i, j);
            let name = path_name(p.as_str(), al);
            out.append(name.as_str());
            assert(out@ + render_from(s@, j as int, al@) == render_type(s@, al@));
            i = j;
        }
    }
    out
}

} // verus!
