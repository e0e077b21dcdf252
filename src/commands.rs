use vstd::prelude::*;

use crate::action::Action;
use crate::text::{
    chars_of, concat, pieces, split_chars, split_on, string_of_chars, words, Separator,
};

verus! {

/// Number of commands the palette knows.
pub const COMMAND_COUNT: usize = 2;

/// A command of the palette: its name, its short names, what it does and
/// how many arguments it takes (each completed as a path).
pub struct Command {
    pub name: &'static str,
    pub aliases: Vec<&'static str>,
    pub description: &'static str,
    pub arity: usize,
}

/// One entry of the completion list: the word offered, what it is, and the
/// whole input that choosing it gives.
#[derive(Clone, Debug)]
pub struct Completion {
    pub val: String,
    pub description: Option<String>,
    pub full: String,
}

/// The value of a completion.
pub struct CompletionView {
    pub val: Seq<char>,
    pub description: Option<Seq<char>>,
    pub full: Seq<char>,
}

impl View for Completion {
    type V = CompletionView;

    open spec fn view(&self) -> CompletionView {
        CompletionView {
            val: self.val@,
            description: match self.description {
                Some(d) => Some(d@),
                None => None,
            },
            full: self.full@,
        }
    }
}

pub open spec fn name_of(k: int) -> Seq<char> {
    if k == 0 {
        "quit"@
    } else {
        "export"@
    }
}

pub open spec fn aliases_of(k: int) -> Seq<Seq<char>> {
    if k == 0 {
        seq!["q"@]
    } else {
        seq!["e"@]
    }
}

pub open spec fn description_of(k: int) -> Seq<char> {
    if k == 0 {
        "Quit sketshy"@
    } else {
        "Export to a plaintext file"@
    }
}

pub open spec fn arity_of(k: int) -> int {
    if k == 0 {
        0
    } else {
        1
    }
}

/// The parts joined, `sep` between each two.
pub open spec fn join(parts: Seq<Seq<char>>, sep: Seq<char>) -> Seq<char>
    decreases parts.len(),
{
    if parts.len() == 0 {
        Seq::empty()
    } else if parts.len() == 1 {
        parts[0]
    } else {
        join(parts.drop_last(), sep) + sep + parts.last()
    }
}

/// What the list says of command `k`: its description, then its aliases.
pub open spec fn describe(k: int) -> Seq<char> {
    if aliases_of(k).len() == 0 {
        description_of(k)
    } else {
        description_of(k) + ". Aliases: "@ + join(aliases_of(k), ", "@)
    }
}

/// Whether `ident` names command `k`, by its name or an alias.
pub open spec fn names(k: int, ident: Seq<char>) -> bool {
    ident == name_of(k) || aliases_of(k).contains(ident)
}

/// Whether `ident` begins the name or an alias of command `k`.
pub open spec fn begins(k: int, ident: Seq<char>) -> bool {
    ident.is_prefix_of(name_of(k)) || exists|j: int|
        0 <= j < aliases_of(k).len() && ident.is_prefix_of(#[trigger] aliases_of(k)[j])
}

/// The first command from `k` on that `ident` names.
pub open spec fn lookup_from(ident: Seq<char>, k: int) -> Option<int>
    decreases COMMAND_COUNT - k,
{
    if k >= COMMAND_COUNT || k < 0 {
        None
    } else if names(k, ident) {
        Some(k)
    } else {
        lookup_from(ident, k + 1)
    }
}

pub open spec fn lookup(ident: Seq<char>) -> Option<int> {
    lookup_from(ident, 0)
}

/// The list entry of command `k`.
pub open spec fn entry(k: int) -> CompletionView {
    CompletionView { val: name_of(k), description: Some(describe(k)), full: name_of(k) }
}

/// The entries of the first `k` commands that `ident` begins, in order.
pub open spec fn listed(ident: Seq<char>, k: int) -> Seq<CompletionView>
    decreases k,
{
    if k <= 0 {
        Seq::empty()
    } else if begins(k - 1, ident) {
        listed(ident, k - 1).push(entry(k - 1))
    } else {
        listed(ident, k - 1)
    }
}

/// The argument of `input` to complete as a path: its last piece, when the
/// first piece names a command and the pieces after it do not outnumber the
/// command's arguments.
pub open spec fn path_to_complete(input: Seq<char>) -> Option<Seq<char>> {
    let p = pieces(input);
    if p[0].len() > 0 && p.len() > 1 && lookup(p[0]) is Some && p.len() - 2 < arity_of(
        lookup(p[0])->0,
    ) {
        Some(p.last())
    } else {
        None
    }
}

/// The completions for `input`, given the paths `listing` offered for its
/// last argument: while the first word is typed, the commands it begins;
/// after it, each path with the input's head in front.
pub open spec fn completions(input: Seq<char>, listing: Seq<Seq<char>>) -> Seq<CompletionView> {
    let p = pieces(input);
    if p[0].len() == 0 || p.len() == 1 {
        listed(p[0], COMMAND_COUNT as int)
    } else if path_to_complete(input) is Some {
        let w = words(input);
        let head = concat(w.take(if p.len() - 1 <= w.len() { p.len() - 1 } else { w.len() as int }));
        Seq::new(
            listing.len(),
            |j: int|
                CompletionView {
                    val: listing[j],
                    description: None,
                    full: head + " "@ + listing[j],
                },
        )
    } else {
        Seq::empty()
    }
}

/// The command `input` asks for and its arguments, when the first word
/// names a command and the right number of arguments follows.
pub open spec fn parsed(input: Seq<char>) -> Option<(int, Seq<Seq<char>>)> {
    let w = words(input);
    if w.len() == 0 {
        None
    } else {
        match lookup(w[0]) {
            Some(k) => if w.len() - 1 == arity_of(k) {
                Some((k, w.drop_first()))
            } else {
                None
            },
            None => None,
        }
    }
}

/// Command `k` of the palette.
fn command(k: usize) -> (r: Command)
    requires
        k < COMMAND_COUNT,
    ensures
        r.name@ == name_of(k as int),
        r.aliases@.len() == aliases_of(k as int).len(),
        forall|j: int| 0 <= j < r.aliases@.len() ==> #[trigger] r.aliases@[j]@ == aliases_of(k as int)[j],
        r.description@ == description_of(k as int),
        r.arity == arity_of(k as int),
{
    if k == 0 {
        Command { name: "quit", aliases: vec!["q"], description: "Quit sketshy", arity: 0 }
    } else {
        Command {
            name: "export",
            aliases: vec!["e"],
            description: "Export to a plaintext file",
            arity: 1,
        }
    }
}

fn same_chars(a: &Vec<char>, b: &Vec<char>) -> (r: bool)
    ensures
        r == (a@ == b@),
{
    if a.len() != b.len() {
        return false;
    }
    for i in 0..a.len()
        invariant
            a@.len() == b@.len(),
            forall|j: int| 0 <= j < i ==> a@[j] == b@[j],
    {
        if a[i] != b[i] {
            return false;
        }
    }
    assert(a@ =~= b@);
    true
}

fn is_prefix(a: &Vec<char>, b: &Vec<char>) -> (r: bool)
    ensures
        r == a@.is_prefix_of(b@),
{
    if a.len() > b.len() {
        return false;
    }
    for i in 0..a.len()
        invariant
            a@.len() <= b@.len(),
            forall|j: int| 0 <= j < i ==> a@[j] == b@[j],
    {
        if a[i] != b[i] {
            assert(a@[i as int] != b@.subrange(0, a@.len() as int)[i as int]);
            return false;
        }
    }
    assert(a@ =~= b@.subrange(0, a@.len() as int));
    true
}

/// Whether `ident` names command `k`.
fn names_exec(k: usize, ident: &Vec<char>) -> (r: bool)
    requires
        k < COMMAND_COUNT,
    ensures
        r == names(k as int, ident@),
{
    let c = command(k);
    if same_chars(&chars_of(c.name), ident) {
        return true;
    }
    for j in 0..c.aliases.len()
        invariant
            c.aliases@.len() == aliases_of(k as int).len(),
            forall|i: int| 0 <= i < c.aliases@.len() ==> #[trigger] c.aliases@[i]@ == aliases_of(k as int)[i],
            ident@ != name_of(k as int),
            forall|i: int| 0 <= i < j ==> aliases_of(k as int)[i] != ident@,
    {
        if same_chars(&chars_of(c.aliases[j]), ident) {
            assert(aliases_of(k as int)[j as int] == ident@);
            return true;
        }
    }
    false
}

/// Whether `ident` begins the name or an alias of command `k`.
fn begins_exec(k: usize, ident: &Vec<char>) -> (r: bool)
    requires
        k < COMMAND_COUNT,
    ensures
        r == begins(k as int, ident@),
{
    let c = command(k);
    if is_prefix(ident, &chars_of(c.name)) {
        return true;
    }
    for j in 0..c.aliases.len()
        invariant
            c.aliases@.len() == aliases_of(k as int).len(),
            forall|i: int| 0 <= i < c.aliases@.len() ==> #[trigger] c.aliases@[i]@ == aliases_of(k as int)[i],
            !ident@.is_prefix_of(name_of(k as int)),
            forall|i: int| 0 <= i < j ==> !ident@.is_prefix_of(#[trigger] aliases_of(k as int)[i]),
    {
        if is_prefix(ident, &chars_of(c.aliases[j])) {
            return true;
        }
    }
    false
}

/// The command `ident` names.
fn parse_ident(ident: &Vec<char>) -> (r: Option<usize>)
    ensures
        r matches Some(k) ==> lookup(ident@) == Some(k as int) && k < COMMAND_COUNT,
        r is None ==> lookup(ident@) is None,
{
    let mut k: usize = 0;
    while k < COMMAND_COUNT
        invariant
            k <= COMMAND_COUNT,
            lookup(ident@) == lookup_from(ident@, k as int),
        decreases COMMAND_COUNT - k,
    {
        if names_exec(k, ident) {
            return Some(k);
        }
        k += 1;
    }
    None
}

/// What the list says of command `k`.
fn describe_exec(k: usize) -> (r: String)
    requires
        k < COMMAND_COUNT,
    ensures
        r@ == describe(k as int),
{
    let c = command(k);
    let mut r = String::from_str(c.description);
    if c.aliases.len() == 0 {
        return r;
    }
    r.append(". Aliases: ");
    for j in 0..c.aliases.len()
        invariant
            c.aliases@.len() == aliases_of(k as int).len(),
            c.aliases@.len() > 0,
            forall|i: int| 0 <= i < c.aliases@.len() ==> #[trigger] c.aliases@[i]@ == aliases_of(k as int)[i],
            j == 0 ==> r@ == description_of(k as int) + ". Aliases: "@,
            j > 0 ==> r@ == description_of(k as int) + ". Aliases: "@ + join(
                aliases_of(k as int).subrange(0, j as int),
                ", "@,
            ),
    {
        if j > 0 {
            r.append(", ");
        }
        r.append(c.aliases[j]);
        assert(aliases_of(k as int).subrange(0, j + 1).drop_last() =~= aliases_of(k as int).subrange(0, j as int));
        proof {
            if j == 0 {
                assert(join(aliases_of(k as int).subrange(0, 1), ", "@) == aliases_of(k as int)[0]);
            }
        }
        assert(r@ =~= description_of(k as int) + ". Aliases: "@ + join(
            aliases_of(k as int).subrange(0, j + 1),
            ", "@,
        ));
    }
    assert(aliases_of(k as int).subrange(0, aliases_of(k as int).len() as int) =~= aliases_of(k as int));
    r
}

/// The words of `s`.
fn words_of(s: &Vec<char>) -> (r: Vec<Vec<char>>)
    ensures
        r@.len() == words(s@).len(),
        forall|i: int| 0 <= i < r@.len() ==> #[trigger] r@[i]@ == words(s@)[i],
{
    let parts = split_chars(s, Separator::Whitespace);
    let ghost sp = split_on(s@, Separator::Whitespace);
    let ghost nonempty = |w: Seq<char>| w.len() > 0;
    let mut r: Vec<Vec<char>> = Vec::new();
    for i in 0..parts.len()
        invariant
            parts@.len() == sp.len(),
            forall|j: int| 0 <= j < parts@.len() ==> #[trigger] parts@[j]@ == sp[j],
            nonempty == (|w: Seq<char>| w.len() > 0),
            r@.len() == sp.take(i as int).filter(nonempty).len(),
            forall|j: int| 0 <= j < r@.len() ==> #[trigger] r@[j]@ == sp.take(i as int).filter(nonempty)[j],
    {
        proof {
            reveal(Seq::filter);
            assert(sp.take(i + 1).drop_last() =~= sp.take(i as int));
        }
        if parts[i].len() > 0 {
            r.push(parts[i].clone());
        }
    }
    assert(sp.take(sp.len() as int) =~= sp);
    r
}

/// The path argument of `input` that the palette should offer paths for, if
/// any.
pub fn completion_request(input: &str) -> (r: Option<String>)
    ensures
        match path_to_complete(input@) {
            Some(a) => r matches Some(s) && s@ == a,
            None => r is None,
        },
{
    let chars = chars_of(input);
    let p = split_chars(&chars, Separator::Space);
    proof {
        crate::text::lemma_split_nonempty(input@, Separator::Space);
    }
    if p[0].len() == 0 || p.len() == 1 {
        return None;
    }
    assert(p@[0]@ == pieces(input@)[0]);
    assert(p@.len() == pieces(input@).len());
    match parse_ident(&p[0]) {
        Some(k) => {
            let c = command(k);
            if p.len() - 2 < c.arity {
                Some(string_of_chars(&p[p.len() - 1]))
            } else {
                None
            }
        },
        None => None,
    }
}

/// The completions for `input`. `listing` holds the paths offered for the
/// argument that `completion_request` named; it is read only then.
pub fn get_completions(input: &str, listing: &Vec<String>) -> (r: Vec<Completion>)
    ensures
        r@.len() == completions(input@, listing@.map_values(|s: String| s@)).len(),
        forall|j: int|
            0 <= j < r@.len() ==> #[trigger] r@[j]@ == completions(
                input@,
                listing@.map_values(|s: String| s@),
            )[j],
{
    let ghost lv = listing@.map_values(|s: String| s@);
    let ghost want = completions(input@, lv);
    let chars = chars_of(input);
    let p = split_chars(&chars, Separator::Space);
    proof {
        crate::text::lemma_split_nonempty(input@, Separator::Space);
    }
    let mut r: Vec<Completion> = Vec::new();
    if p[0].len() == 0 || p.len() == 1 {
        let ident = &p[0];
        let mut k: usize = 0;
        while k < COMMAND_COUNT
            invariant
                k <= COMMAND_COUNT,
                ident@ == pieces(input@)[0],
                r@.len() == listed(ident@, k as int).len(),
                forall|j: int| 0 <= j < r@.len() ==> #[trigger] r@[j]@ == listed(ident@, k as int)[j],
            decreases COMMAND_COUNT - k,
        {
            if begins_exec(k, ident) {
                let c = command(k);
                r.push(
                    Completion {
                        val: String::from_str(c.name),
                        description: Some(describe_exec(k)),
                        full: String::from_str(c.name),
                    },
                );
            }
            k += 1;
        }
        return r;
    }
    if completion_request(input).is_none() {
        return r;
    }
    let n_head = p.len() - 1;
    let w = words_of(&chars);
    let mut head: Vec<char> = Vec::new();
    let mut i: usize = 0;
    while i < n_head && i < w.len()
        invariant
            w@.len() == words(input@).len(),
            forall|j: int| 0 <= j < w@.len() ==> #[trigger] w@[j]@ == words(input@)[j],
            i <= w@.len(),
            i <= n_head,
            head@ == concat(words(input@).take(i as int)),
        decreases w@.len() - i,
    {
        let mut j: usize = 0;
        let ghost before = head@;
        while j < w[i].len()
            invariant
                i < w@.len(),
                j <= w@[i as int]@.len(),
                head@ == before + w@[i as int]@.subrange(0, j as int),
            decreases w@[i as int]@.len() - j,
        {
            head.push(w[i][j]);
            j += 1;
            assert(head@ =~= before + w@[i as int]@.subrange(0, j as int));
        }
        assert(words(input@).take(i + 1).drop_last() =~= words(input@).take(i as int));
        assert(w@[i as int]@.subrange(0, w@[i as int]@.len() as int) =~= w@[i as int]@);
        i += 1;
    }
    let ghost m = if n_head <= words(input@).len() { n_head as int } else { words(input@).len() as int };
    assert(i == m);
    head.push(' ');
    let ghost prefix = concat(words(input@).take(m)) + " "@;
    proof {
        reveal_strlit(" ");
        assert(head@ =~= prefix);
    }
    for j in 0..listing.len()
        invariant
            lv == listing@.map_values(|s: String| s@),
            head@ == prefix,
            r@.len() == j,
            forall|m: int|
                0 <= m < j ==> #[trigger] r@[m]@ == (CompletionView {
                    val: lv[m],
                    description: None,
                    full: prefix + lv[m],
                }),
    {
        let mut full = string_of_chars(&head);
        full.append(listing[j].as_str());
        r.push(Completion { val: listing[j].clone(), description: None, full });
    }
    assert forall|m: int| 0 <= m < r@.len() implies #[trigger] r@[m]@ == want[m] by {
        assert(prefix + lv[m] =~= concat(words(input@).take(i as int)) + " "@ + lv[m]);
    }
    r
}

/// The action a palette input asks for: the first word names a command
/// (or one of its aliases) and the right number of words follows.
pub fn parse_command(input: &str) -> (r: Option<Action>)
    ensures
        match parsed(input@) {
            None => r is None,
            Some((k, args)) => if k == 0 {
                r == Some(Action::Quit)
            } else {
                r matches Some(Action::Export(path)) && path@ == args[0]
            },
        },
{
    let chars = chars_of(input);
    let w = words_of(&chars);
    if w.len() == 0 {
        return None;
    }
    assert(w@[0]@ == words(input@)[0]);
    match parse_ident(&w[0]) {
        Some(k) => {
            let c = command(k);
            if w.len() - 1 != c.arity {
                return None;
            }
            if k == 0 {
                Some(Action::Quit)
            } else {
                assert(w@.drop_first()[0] == w@[1]);
                Some(Action::Export(string_of_chars(&w[1])))
            }
        },
        None => None,
    }
}

} // verus!
