//! Query parameters: each option is either present, written by its own rule, or left out.
use vstd::prelude::*;
use vstd::string::StringExecFns;

use crate::list::{csv, csv_texts, joined, texts, wires};
use crate::text::{decimal, push_decimal};
use crate::variable::Token;

verus! {

/// A query as (name, value) texts.
pub open spec fn query_view(q: Seq<(String, String)>) -> Seq<(Seq<char>, Seq<char>)> {
    q.map_values(|p: (String, String)| (p.0@, p.1@))
}

/// The parameters that one option gives: none where it is absent, one where it is present.
pub open spec fn param(name: Seq<char>, value: Option<Seq<char>>) -> Seq<(Seq<char>, Seq<char>)> {
    match value {
        Some(v) => seq![(name, v)],
        None => Seq::empty(),
    }
}

/// The value of an optional list of tokens: the tokens joined with commas.
pub open spec fn list_value<X: Token>(l: Option<Vec<X>>) -> Option<Seq<char>> {
    match l {
        Some(xs) => Some(joined(wires(xs@))),
        None => None,
    }
}

/// The value of an optional list of texts: the texts joined with commas.
pub open spec fn texts_value(l: Option<Vec<String>>) -> Option<Seq<char>> {
    match l {
        Some(xs) => Some(joined(texts(xs@))),
        None => None,
    }
}

/// The value of an optional text: the text itself.
pub open spec fn text_value(t: Option<String>) -> Option<Seq<char>> {
    match t {
        Some(s) => Some(s@),
        None => None,
    }
}

/// The value of an optional count: its decimal writing.
pub open spec fn count_value(n: Option<usize>) -> Option<Seq<char>> {
    match n {
        Some(k) => Some(decimal(k as nat)),
        None => None,
    }
}

/// The value of an optional enumerated option: its token.
pub open spec fn token_value<X: Token>(x: Option<X>) -> Option<Seq<char>> {
    match x {
        Some(v) => Some(v.wire()),
        None => None,
    }
}

/// Appends the parameter `name` with `value`, where there is a value.
pub fn push_param(q: &mut Vec<(String, String)>, name: &str, value: Option<String>)
    ensures
        query_view(final(q)@) == query_view(old(q)@) + param(name@, text_value(value)),
{
    match value {
        Some(v) => {
            q.push((String::from_str(name), v));
        },
        None => {},
    }
    assert(query_view(final(q)@) =~= query_view(old(q)@) + param(name@, text_value(value)));
}

/// The value of an optional list of tokens.
pub fn list_text<X: Token>(l: &Option<Vec<X>>) -> (r: Option<String>)
    ensures
        text_value(r) == list_value(*l),
{
    csv(l)
}

/// The value of an optional list of texts.
pub fn texts_text(l: &Option<Vec<String>>) -> (r: Option<String>)
    ensures
        text_value(r) == texts_value(*l),
{
    csv_texts(l)
}

/// The value of an optional count.
pub fn count_text(n: Option<usize>) -> (r: Option<String>)
    ensures
        text_value(r) == count_value(n),
{
    match n {
        Some(k) => {
            let mut s = String::new();
            push_decimal(&mut s, k);
            assert(s@ =~= decimal(k as nat));
            Some(s)
        },
        None => None,
    }
}

/// The value of an optional text.
pub fn text_text(t: &Option<String>) -> (r: Option<String>)
    ensures
        text_value(r) == text_value(*t),
{
    match t {
        Some(s) => Some(s.clone()),
        None => None,
    }
}

/// The value of an optional enumerated option.
pub fn token_text<X: Token>(x: &Option<X>) -> (r: Option<String>)
    ensures
        text_value(r) == token_value(*x),
{
    match x {
        Some(v) => Some(v.token()),
        None => None,
    }
}

} // verus!
