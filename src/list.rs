//! Lists of tokens as one request parameter.
use vstd::prelude::*;
use vstd::string::StringExecFns;

use crate::variable::Token;

verus! {

/// The texts `ts` joined with commas, in order.
pub open spec fn joined(ts: Seq<Seq<char>>) -> Seq<char>
    decreases ts.len(),
{
    if ts.len() == 0 {
        Seq::empty()
    } else if ts.len() == 1 {
        ts[0]
    } else {
        joined(ts.drop_last()) + ","@ + ts.last()
    }
}

/// The wire tokens of `xs`, in order.
pub open spec fn wires<X: Token>(xs: Seq<X>) -> Seq<Seq<char>> {
    xs.map_values(|x: X| x.wire())
}

/// The texts of `xs`, in order.
pub open spec fn texts(xs: Seq<String>) -> Seq<Seq<char>> {
    xs.map_values(|x: String| x@)
}

/// Appends the joined tokens of `xs` to `s`.
fn push_joined<X: Token>(s: &mut String, xs: &Vec<X>)
    ensures
        final(s)@ == old(s)@ + joined(wires(xs@)),
{
    let ghost start = s@;
    let mut i: usize = 0;
    while i < xs.len()
        invariant
            i <= xs@.len(),
            s@ == start + joined(wires(xs@.take(i as int))),
        decreases xs@.len() - i,
    {
        proof {
            reveal_strlit(",");
        }
        if i > 0 {
            s.append(",");
        }
        let t = xs[i].token();
        s.append(t.as_str());
        proof {
            let w = wires(xs@.take(i + 1));
            assert(w.drop_last() =~= wires(xs@.take(i as int)));
            assert(w.last() == xs@[i as int].wire());
            if i == 0 {
                assert(wires(xs@.take(0)) =~= Seq::<Seq<char>>::empty());
            }
            assert(s@ =~= start + joined(w));
        }
        i = i + 1;
    }
    assert(xs@.take(xs@.len() as int) =~= xs@);
}

/// Appends the joined texts of `xs` to `s`.
fn push_joined_texts(s: &mut String, xs: &Vec<String>)
    ensures
        final(s)@ == old(s)@ + joined(texts(xs@)),
{
    let ghost start = s@;
    let mut i: usize = 0;
    while i < xs.len()
        invariant
            i <= xs@.len(),
            s@ == start + joined(texts(xs@.take(i as int))),
        decreases xs@.len() - i,
    {
        proof {
            reveal_strlit(",");
        }
        if i > 0 {
            s.append(",");
        }
        s.append(xs[i].as_str());
        proof {
            let w = texts(xs@.take(i + 1));
            assert(w.drop_last() =~= texts(xs@.take(i as int)));
            assert(w.last() == xs@[i as int]@);
            if i == 0 {
                assert(texts(xs@.take(0)) =~= Seq::<Seq<char>>::empty());
            }
            assert(s@ =~= start + joined(w));
        }
        i = i + 1;
    }
    assert(xs@.take(xs@.len() as int) =~= xs@);
}

/// The request parameter for an optional list of tokens: `None` where the list is absent
/// (the parameter is left out), else the tokens joined with commas, in order, repeats kept.
pub fn csv<X: Token>(list: &Option<Vec<X>>) -> (r: Option<String>)
    ensures
        match list {
            Some(xs) => r is Some && r->Some_0@ == joined(wires(xs@)),
            None => r is None,
        },
{
    match list {
        Some(xs) => {
            let mut s = String::new();
            push_joined(&mut s, xs);
            assert(s@ =~= joined(wires(xs@)));
            Some(s)
        },
        None => None,
    }
}

/// The request parameter for an optional list of free texts, joined as [`csv`] joins tokens.
pub fn csv_texts(list: &Option<Vec<String>>) -> (r: Option<String>)
    ensures
        match list {
            Some(xs) => r is Some && r->Some_0@ == joined(texts(xs@)),
            None => r is None,
        },
{
    match list {
        Some(xs) => {
            let mut s = String::new();
            push_joined_texts(&mut s, xs);
            assert(s@ =~= joined(texts(xs@)));
            Some(s)
        },
        None => None,
    }
}

} // verus!
