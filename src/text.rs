use vstd::prelude::*;

verus! {

/// Unicode's White_Space property: the chars `char::is_whitespace` accepts.
pub open spec fn white_space(c: char) -> bool {
    let u = c as u32;
    ||| 0x09 <= u <= 0x0d
    ||| u == 0x20
    ||| u == 0x85
    ||| u == 0xa0
    ||| u == 0x1680
    ||| 0x2000 <= u <= 0x200a
    ||| u == 0x2028
    ||| u == 0x2029
    ||| u == 0x202f
    ||| u == 0x205f
    ||| u == 0x3000
}

/// How a splitter tells separators apart.
#[derive(Clone, Copy, Debug, PartialEq, Eq, Structural)]
pub enum Separator {
    Space,
    Whitespace,
}

pub open spec fn separates(sep: Separator, c: char) -> bool {
    match sep {
        Separator::Space => c == ' ',
        Separator::Whitespace => white_space(c),
    }
}

/// `s` cut at every separator, the separators dropped: empty pieces stand
/// between adjacent separators and at the ends, as with `str::split`.
pub open spec fn split_on(s: Seq<char>, sep: Separator) -> Seq<Seq<char>>
    decreases s.len(),
{
    if s.len() == 0 {
        seq![Seq::empty()]
    } else {
        let rest = split_on(s.drop_last(), sep);
        if separates(sep, s.last()) {
            rest.push(Seq::empty())
        } else {
            rest.update(rest.len() - 1, rest.last().push(s.last()))
        }
    }
}

/// The pieces of `s` between single spaces.
pub open spec fn pieces(s: Seq<char>) -> Seq<Seq<char>> {
    split_on(s, Separator::Space)
}

/// The non-empty runs of `s` between whitespace, as with
/// `str::split_whitespace`.
pub open spec fn words(s: Seq<char>) -> Seq<Seq<char>> {
    split_on(s, Separator::Whitespace).filter(|w: Seq<char>| w.len() > 0)
}

/// The sequences of `parts` one after another.
pub open spec fn concat(parts: Seq<Seq<char>>) -> Seq<char>
    decreases parts.len(),
{
    if parts.len() == 0 {
        Seq::empty()
    } else {
        concat(parts.drop_last()) + parts.last()
    }
}

pub proof fn lemma_split_nonempty(s: Seq<char>, sep: Separator)
    ensures
        split_on(s, sep).len() >= 1,
    decreases s.len(),
{
    if s.len() > 0 {
        lemma_split_nonempty(s.drop_last(), sep);
    }
}

/// Whether `c` has Unicode's White_Space property, as `char::is_whitespace`
/// tells.
fn is_whitespace(c: char) -> (r: bool)
    ensures
        r == white_space(c),
{
    let u = c as u32;
    (0x09 <= u && u <= 0x0d) || u == 0x20 || u == 0x85 || u == 0xa0 || u == 0x1680 || (0x2000
        <= u && u <= 0x200a) || u == 0x2028 || u == 0x2029 || u == 0x202f || u == 0x205f || u
        == 0x3000
}

/// Relies on std's `FromIterator<char>` for `String`: the string holds the
/// chars in order.
#[verifier::external_body]
pub(crate) fn string_of_chars(chars: &Vec<char>) -> (r: String)
    ensures
        r@ == chars@,
{
    chars.iter().collect()
}

/// The chars of `s`.
pub fn chars_of(s: &str) -> (r: Vec<char>)
    ensures
        r@ == s@,
{
    let n = s.unicode_len();
    let mut r: Vec<char> = Vec::new();
    for i in 0..n
        invariant
            n == s@.len(),
            r@ == s@.subrange(0, i as int),
    {
        r.push(s.get_char(i));
        assert(r@ =~= s@.subrange(0, i + 1));
    }
    assert(r@ =~= s@);
    r
}

/// `s` cut at every separator.
pub fn split_chars(s: &Vec<char>, sep: Separator) -> (r: Vec<Vec<char>>)
    ensures
        r@.len() == split_on(s@, sep).len(),
        forall|i: int| 0 <= i < r@.len() ==> #[trigger] r@[i]@ == split_on(s@, sep)[i],
{
    let mut parts: Vec<Vec<char>> = Vec::new();
    let mut current: Vec<char> = Vec::new();
    for i in 0..s.len()
        invariant
            ({
                let sp = split_on(s@.subrange(0, i as int), sep);
                &&& parts@.len() + 1 == sp.len()
                &&& forall|j: int| 0 <= j < parts@.len() ==> #[trigger] parts@[j]@ == sp[j]
                &&& current@ == sp.last()
            }),
    {
        let c = s[i];
        let ghost prefix = s@.subrange(0, i + 1);
        assert(prefix.drop_last() =~= s@.subrange(0, i as int));
        proof {
            lemma_split_nonempty(s@.subrange(0, i as int), sep);
        }
        let split_here = match sep {
            Separator::Space => c == ' ',
            Separator::Whitespace => is_whitespace(c),
        };
        if split_here {
            parts.push(current);
            current = Vec::new();
        } else {
            current.push(c);
        }
    }
    assert(s@.subrange(0, s@.len() as int) =~= s@);
    parts.push(current);
    parts
}

} // verus!
