//! Helpers for the wire format of requests: decimal rendering of numeric
//! identifiers and separator-joined concatenation of serialized tokens.

use vstd::prelude::*;

verus! {

/// The decimal digit `d` (0 to 9) as the view of its one-character token.
pub open spec fn dec_digit(d: int) -> Seq<char> {
    if d == 0 {
        "0"@
    } else if d == 1 {
        "1"@
    } else if d == 2 {
        "2"@
    } else if d == 3 {
        "3"@
    } else if d == 4 {
        "4"@
    } else if d == 5 {
        "5"@
    } else if d == 6 {
        "6"@
    } else if d == 7 {
        "7"@
    } else if d == 8 {
        "8"@
    } else {
        "9"@
    }
}

/// The usual decimal representation of a non-negative `n`, most significant
/// digit first, without leading zeroes.
pub open spec fn dec_rep(n: int) -> Seq<char>
    decreases n,
{
    if n < 10 {
        dec_digit(n)
    } else {
        dec_rep(n / 10) + dec_digit(n % 10)
    }
}

fn dec_digit_str(d: u64) -> (r: &'static str)
    requires
        d < 10,
    ensures
        r@ == dec_digit(d as int),
{
    if d == 0 {
        "0"
    } else if d == 1 {
        "1"
    } else if d == 2 {
        "2"
    } else if d == 3 {
        "3"
    } else if d == 4 {
        "4"
    } else if d == 5 {
        "5"
    } else if d == 6 {
        "6"
    } else if d == 7 {
        "7"
    } else if d == 8 {
        "8"
    } else {
        "9"
    }
}

/// Renders `n` in decimal, as path templates and query parameters need it.
pub fn u64_to_dec(n: u64) -> (r: String)
    ensures
        r@ == dec_rep(n as int),
    decreases n,
{
    if n < 10 {
        dec_digit_str(n).to_owned()
    } else {
        let mut s = u64_to_dec(n / 10);
        s.append(dec_digit_str(n % 10));
        s
    }
}

/// Concatenation of already-serialized tokens with a separator between
/// neighbours: the shape of a `fields` parameter value, of a composite
/// field's parenthesized group, and of a query string.
pub open spec fn join_sep(parts: Seq<Seq<char>>, sep: Seq<char>) -> Seq<char>
    decreases parts.len(),
{
    if parts.len() == 0 {
        Seq::empty()
    } else if parts.len() == 1 {
        parts[0]
    } else {
        parts[0] + sep + join_sep(parts.drop_first(), sep)
    }
}

/// Comma-joined concatenation of already-serialized tokens.
pub open spec fn join_comma(parts: Seq<Seq<char>>) -> Seq<char> {
    join_sep(parts, ","@)
}

/// Joining after appending one more token appends a separator (unless the
/// list was empty) and the token.
pub proof fn lemma_join_sep_push(parts: Seq<Seq<char>>, sep: Seq<char>, x: Seq<char>)
    ensures
        join_sep(parts.push(x), sep) == if parts.len() == 0 {
            x
        } else {
            join_sep(parts, sep) + sep + x
        },
    decreases parts.len(),
{
    if parts.len() == 0 {
        assert(join_sep(parts.push(x), sep) == x);
    } else if parts.len() == 1 {
        let p = parts.push(x);
        assert(p[0] == parts[0]);
        assert(p.drop_first() =~= seq![x]);
        assert(join_sep(seq![x], sep) == x);
        assert(join_sep(p, sep) == parts[0] + sep + x);
    } else {
        let p = parts.push(x);
        assert(p[0] == parts[0]);
        assert(p.drop_first() =~= parts.drop_first().push(x));
        lemma_join_sep_push(parts.drop_first(), sep, x);
        assert(join_sep(p, sep) == parts[0] + sep + (join_sep(parts.drop_first(), sep) + sep + x));
        assert(join_sep(p, sep) =~= join_sep(parts, sep) + sep + x);
    }
}

} // verus!
