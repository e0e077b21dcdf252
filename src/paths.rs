use vstd::prelude::*;

use crate::text::chars_of;

verus! {

/// A directory entry that path completion may offer: the path shown for
/// it, its file name, and whether it is a directory.
pub struct PathEntry {
    pub path: String,
    pub name: String,
    pub is_dir: bool,
}

/// The code of `c` with ASCII upper-case letters taken to lower case.
pub open spec fn folded(c: char) -> u32 {
    if 65 <= c as u32 <= 90 {
        (c as u32 + 32) as u32
    } else {
        c as u32
    }
}

/// Whether `p` begins `s`, ignoring ASCII case.
pub open spec fn folded_prefix(p: Seq<char>, s: Seq<char>) -> bool {
    &&& p.len() <= s.len()
    &&& forall|i: int| 0 <= i < p.len() ==> folded(#[trigger] p[i]) == folded(s[i])
}

/// Whether `a` comes no later than `b` when their chars are compared one by
/// one by code point, a prefix first.
pub open spec fn chars_le(a: Seq<char>, b: Seq<char>) -> bool
    decreases a.len(),
{
    if a.len() == 0 {
        true
    } else if b.len() == 0 {
        false
    } else if a[0] != b[0] {
        (a[0] as u32) < (b[0] as u32)
    } else {
        chars_le(a.drop_first(), b.drop_first())
    }
}

/// How an entry is offered: its path, with `/` after a directory.
pub open spec fn shown(e: PathEntry) -> Seq<char> {
    if e.is_dir {
        e.path@.push('/')
    } else {
        e.path@
    }
}

/// The first `n` entries whose name `stem` begins (ignoring ASCII case), as
/// offered, in order.
pub open spec fn offered(stem: Seq<char>, entries: Seq<PathEntry>, n: int) -> Seq<Seq<char>>
    decreases n,
{
    if n <= 0 {
        Seq::empty()
    } else if folded_prefix(stem, entries[n - 1].name@) {
        offered(stem, entries, n - 1).push(shown(entries[n - 1]))
    } else {
        offered(stem, entries, n - 1)
    }
}

/// Relies on std's `slice::sort` on `String`s: the strings are reordered,
/// none lost or added, into ascending order; `String`'s order compares the
/// UTF-8 bytes, which orders the chars one by one by code point.
#[verifier::external_body]
fn sort_strings(v: &mut Vec<String>)
    ensures
        final(v)@.map_values(|s: String| s@).to_multiset() == old(v)@.map_values(
            |s: String| s@,
        ).to_multiset(),
        forall|i: int, j: int|
            0 <= i < j < final(v)@.len() ==> chars_le(final(v)@[i]@, final(v)@[j]@),
{
    v.sort()
}

fn ascii_folded(c: char) -> (r: u32)
    ensures
        r == folded(c),
{
    let u = c as u32;
    if 65 <= u && u <= 90 {
        u + 32
    } else {
        u
    }
}

fn begins_folded(p: &Vec<char>, s: &Vec<char>) -> (r: bool)
    ensures
        r == folded_prefix(p@, s@),
{
    if p.len() > s.len() {
        return false;
    }
    for i in 0..p.len()
        invariant
            p@.len() <= s@.len(),
            forall|k: int| 0 <= k < i ==> folded(#[trigger] p@[k]) == folded(s@[k]),
    {
        if ascii_folded(p[i]) != ascii_folded(s[i]) {
            return false;
        }
    }
    true
}

/// The paths to offer for a typed `stem`: the entries whose name it begins,
/// ignoring ASCII case, each shown with `/` after a directory, in ascending
/// order.
pub fn path_completions(stem: &str, entries: &Vec<PathEntry>) -> (r: Vec<String>)
    ensures
        r@.map_values(|s: String| s@).to_multiset() == offered(
            stem@,
            entries@,
            entries@.len() as int,
        ).to_multiset(),
        forall|i: int, j: int| 0 <= i < j < r@.len() ==> chars_le(r@[i]@, r@[j]@),
{
    let p = chars_of(stem);
    let mut r: Vec<String> = Vec::new();
    for i in 0..entries.len()
        invariant
            p@ == stem@,
            r@.map_values(|s: String| s@) == offered(stem@, entries@, i as int),
    {
        let e = &entries[i];
        if begins_folded(&p, &chars_of(e.name.as_str())) {
            let mut s = e.path.clone();
            if e.is_dir {
                s.append("/");
                proof {
                    reveal_strlit("/");
                }
            }
            assert(s@ == shown(*e));
            r.push(s);
        }
        assert(r@.map_values(|s: String| s@) =~= offered(stem@, entries@, i + 1));
    }
    sort_strings(&mut r);
    r
}

} // verus!
