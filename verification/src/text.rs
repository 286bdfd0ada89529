//! Text rendering: identifiers in decimal, and lists of scalars in braces.
//!
//! How a single scalar is written is up to the caller, who hands in a function
//! from a scalar to its text.

use vstd::prelude::*;
use vstd::string::*;

verus! {

/// The character of a decimal digit.
pub open spec fn digit(d: nat) -> char
    recommends
        d < 10,
{
    if d == 0 {
        '0'
    } else if d == 1 {
        '1'
    } else if d == 2 {
        '2'
    } else if d == 3 {
        '3'
    } else if d == 4 {
        '4'
    } else if d == 5 {
        '5'
    } else if d == 6 {
        '6'
    } else if d == 7 {
        '7'
    } else if d == 8 {
        '8'
    } else {
        '9'
    }
}

/// The decimal digits of `n`, most significant first, without leading zeros.
pub open spec fn decimal(n: nat) -> Seq<char>
    decreases n,
{
    if n < 10 {
        seq![digit(n)]
    } else {
        decimal(n / 10).push(digit(n % 10))
    }
}

/// The texts of `parts` in order, with `sep` between each two neighbours.
pub open spec fn joined(parts: Seq<Seq<char>>, sep: Seq<char>) -> Seq<char>
    decreases parts.len(),
{
    if parts.len() == 0 {
        Seq::empty()
    } else if parts.len() == 1 {
        parts[0]
    } else {
        joined(parts.drop_last(), sep) + sep + parts.last()
    }
}

/// The texts of `parts` as a list: separated by a comma and a space, within
/// braces. The empty list is `{}`.
pub open spec fn braced(parts: Seq<Seq<char>>) -> Seq<char> {
    "{"@ + joined(parts, ", "@) + "}"@
}

/// What each of `texts` holds.
pub open spec fn views(texts: Seq<String>) -> Seq<Seq<char>> {
    texts.map_values(|t: String| t@)
}

/// `texts` holds, for each scalar of `v` in order, a text that `render` gives
/// for it.
pub open spec fn renders_each<R: Fn(u64) -> String>(
    render: R,
    v: Seq<u64>,
    texts: Seq<String>,
) -> bool {
    &&& texts.len() == v.len()
    &&& forall|i: int| 0 <= i < v.len() ==> render.ensures((v[i],), #[trigger] texts[i])
}

/// `s` is the braced list of the scalars of `v`, each written by `render`.
pub open spec fn is_list_of<R: Fn(u64) -> String>(render: R, v: Seq<u64>, s: Seq<char>) -> bool {
    exists|texts: Seq<String>| #[trigger] renders_each(render, v, texts) && s == braced(views(texts))
}

fn digit_str(d: usize) -> (s: &'static str)
    requires
        d < 10,
    ensures
        s@ == seq![digit(d as nat)],
{
    let s: &'static str = if d == 0 {
        "0"
    } else if d == 1 {
        "1"
    } else if d == 2 {
        "2"
    } else if d == 3 {
        "3"
    } else if d == 4 {
        "4"
    } else if d == 5 {
        "5"
    } else if d == 6 {
        "6"
    } else if d == 7 {
        "7"
    } else if d == 8 {
        "8"
    } else {
        "9"
    };
    proof {
        reveal_strlit("0");
        reveal_strlit("1");
        reveal_strlit("2");
        reveal_strlit("3");
        reveal_strlit("4");
        reveal_strlit("5");
        reveal_strlit("6");
        reveal_strlit("7");
        reveal_strlit("8");
        reveal_strlit("9");
    }
    s
}

/// Writes `n` in decimal.
pub fn decimal_string(n: usize) -> (s: String)
    ensures
        s@ == decimal(n as nat),
    decreases n,
{
    if n < 10 {
        String::from_str(digit_str(n))
    } else {
        let mut s: String = decimal_string(n / 10);
        s.append(digit_str(n % 10));
        s
    }
}

/// Concatenates `parts`, putting `sep` between each two neighbours.
pub fn join(parts: &Vec<String>, sep: &str) -> (s: String)
    ensures
        s@ == joined(views(parts@), sep@),
{
    let mut s: String = String::new();
    let mut i: usize = 0;
    while i < parts.len()
        invariant
            i <= parts@.len(),
            s@ == joined(views(parts@).take(i as int), sep@),
        decreases parts@.len() - i,
    {
        if i > 0 {
            s.append(sep);
        }
        s.append(parts[i].as_str());
        proof {
            let shown = views(parts@);
            assert(shown.take(i + 1).drop_last() == shown.take(i as int));
        }
        i = i + 1;
    }
    proof {
        assert(views(parts@).take(i as int) == views(parts@));
    }
    s
}

/// Writes `parts` as a list in braces.
pub fn brace(parts: &Vec<String>) -> (s: String)
    ensures
        s@ == braced(views(parts@)),
{
    let mut s: String = String::from_str("{");
    let inner: String = join(parts, ", ");
    s.append(inner.as_str());
    s.append("}");
    s
}

/// Writes the scalars of `v` as a list in braces, each scalar as `render`
/// writes it: `{}` for none, `{1}` for one, `{1, -1}` for two.
pub fn vec_to_str<R: Fn(u64) -> String>(v: &Vec<u64>, render: R) -> (s: String)
    requires
        forall|i: int| 0 <= i < v@.len() ==> render.requires((#[trigger] v@[i],)),
    ensures
        is_list_of(render, v@, s@),
{
    let mut strings: Vec<String> = Vec::new();
    let mut i: usize = 0;
    while i < v.len()
        invariant
            i <= v@.len(),
            forall|k: int| 0 <= k < v@.len() ==> render.requires((#[trigger] v@[k],)),
            renders_each(render, v@.take(i as int), strings@),
        decreases v@.len() - i,
    {
        let text: String = render(v[i]);
        strings.push(text);
        i = i + 1;
    }
    proof {
        assert(v@.take(i as int) == v@);
    }
    brace(&strings)
}

} // verus!
