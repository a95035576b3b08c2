//! Small pieces of text that the synthesizer puts together: joined names,
//! quoted names, decimal numbers, and the joining of pieces into one text.

use vstd::prelude::*;
use crate::model::texts_of;
use crate::syntax::{appended, tokens_append, tokens_into_string, tokens_new, tokens_text};

verus! {

/// The text after `pieces` have gone to the end of `text` one by one, each
/// as one token.
pub open spec fn joined_onto(text: Seq<char>, pieces: Seq<Seq<char>>) -> Seq<char>
    decreases pieces.len(),
{
    if pieces.len() == 0 {
        text
    } else {
        appended(joined_onto(text, pieces.drop_last()), pieces.last())
    }
}

/// The pieces in order, with a single space between two neighbours;
/// an empty piece is left out and adds no space.
pub open spec fn joined(pieces: Seq<Seq<char>>) -> Seq<char> {
    joined_onto(Seq::empty(), pieces)
}

/// The character of a decimal digit.
pub open spec fn digit(d: nat) -> char {
    if d == 0 {
        '0'
    } else if d == 1 {
        '1'
    } else if d == 2 {
        '2'
    } else if d == 3 {
        '3'
    } else if d == 4 {
        '4'
    } else if d == 5 {
        '5'
    } else if d == 6 {
        '6'
    } else if d == 7 {
        '7'
    } else if d == 8 {
        '8'
    } else {
        '9'
    }
}

/// The decimal numeral of `n`, without leading zeros.
pub open spec fn decimal(n: nat) -> Seq<char>
    decreases n,
{
    if n < 10 {
        seq![digit(n)]
    } else {
        decimal(n / 10).push(digit(n % 10))
    }
}

/// A name between double quotes.
pub open spec fn quoted(name: Seq<char>) -> Seq<char> {
    seq!['"'] + name + seq!['"']
}

/// Two names as one: `lhs` directly followed by `rhs`.
pub fn concat_idents(lhs: &str, rhs: &str) -> (r: String)
    ensures
        r@ == lhs@ + rhs@,
{
    let mut joined = lhs.to_owned();
    joined.append(rhs);
    joined
}

/// `name` between double quotes.
pub fn quote_name(name: &str) -> (r: String)
    ensures
        r@ == quoted(name@),
{
    proof {
        reveal_strlit("\"");
    }
    let mut text = "\"".to_owned();
    text.append(name);
    text.append("\"");
    assert(text@ == quoted(name@));
    text
}

fn digit_text(d: usize) -> (r: &'static str)
    requires
        d < 10,
    ensures
        r@ == seq![digit(d as nat)],
{
    proof {
        reveal_strlit("0");
        reveal_strlit("1");
        reveal_strlit("2");
        reveal_strlit("3");
        reveal_strlit("4");
        reveal_strlit("5");
        reveal_strlit("6");
        reveal_strlit("7");
        reveal_strlit("8");
        reveal_strlit("9");
    }
    let r = if d == 0 {
        "0"
    } else if d == 1 {
        "1"
    } else if d == 2 {
        "2"
    } else if d == 3 {
        "3"
    } else if d == 4 {
        "4"
    } else if d == 5 {
        "5"
    } else if d == 6 {
        "6"
    } else if d == 7 {
        "7"
    } else if d == 8 {
        "8"
    } else {
        "9"
    };
    assert(r@ =~= seq![digit(d as nat)]);
    r
}

/// The decimal numeral of `n`.
pub fn decimal_text(n: usize) -> (r: String)
    ensures
        r@ == decimal(n as nat),
    decreases n,
{
    if n < 10 {
        digit_text(n).to_owned()
    } else {
        let mut text = decimal_text(n / 10);
        text.append(digit_text(n % 10));
        assert(text@ == decimal((n / 10) as nat).push(digit((n % 10) as nat)));
        text
    }
}

/// Joins the pieces into one text, a single space between two neighbours.
pub fn join(pieces: &Vec<String>) -> (r: String)
    ensures
        r@ == joined(texts_of(pieces@)),
{
    let mut tokens = tokens_new();
    let mut i: usize = 0;
    while i < pieces.len()
        invariant
            i <= pieces.len(),
            tokens_text(tokens) == joined(texts_of(pieces@).take(i as int)),
        decreases pieces.len() - i,
    {
        proof {
            let all = texts_of(pieces@);
            assert(all.take(i + 1).drop_last() == all.take(i as int));
            assert(all.take(i + 1).last() == pieces@[i as int]@);
        }
        tokens_append(&mut tokens, pieces[i].as_str());
        i = i + 1;
    }
    proof {
        assert(texts_of(pieces@).take(i as int) == texts_of(pieces@));
    }
    tokens_into_string(tokens)
}

} // verus!
