//! The `input` parameter of a query string.
use vstd::prelude::*;
use crate::text::str_eq;

verus! {

/// The name/value pairs that `form_urlencoded::parse` yields for a query
/// string, in order, after percent- and plus-decoding.
pub uninterp spec fn urlencoded_pairs_of(query: Seq<char>) -> Seq<(Seq<char>, Seq<char>)>;

/// The view of decoded pairs.
pub open spec fn pairs_view(pairs: Seq<(String, String)>) -> Seq<(Seq<char>, Seq<char>)> {
    pairs.map_values(|p: (String, String)| (p.0@, p.1@))
}

/// `form_urlencoded::parse` on the bytes of `query`, each pair taken as owned
/// strings: the result is the sequence of decoded pairs that the crate yields
/// for that text.
#[verifier::external_body]
fn urlencoded_pairs(query: &str) -> (pairs: Vec<(String, String)>)
    ensures
        pairs_view(pairs@) == urlencoded_pairs_of(query@),
{
    form_urlencoded::parse(query.as_bytes()).into_owned().collect()
}

/// The name of the parameter that carries a procedure's input.
pub open spec fn input_key() -> Seq<char> {
    seq!['i', 'n', 'p', 'u', 't']
}

/// The value of the first pair named `input`, if any.
pub open spec fn first_input(pairs: Seq<(Seq<char>, Seq<char>)>) -> Option<Seq<char>>
    decreases pairs.len(),
{
    if pairs.len() == 0 {
        None
    } else if pairs[0].0 == input_key() {
        Some(pairs[0].1)
    } else {
        first_input(pairs.drop_first())
    }
}

/// A query string with no pairs carries no input.
pub proof fn no_pairs_no_input()
    ensures
        first_input(Seq::<(Seq<char>, Seq<char>)>::empty()) is None,
{
}

/// A pair named `input` in front gives its value, unchanged, whatever
/// follows it.
pub proof fn leading_input_pair_gives_its_value(
    value: Seq<char>,
    rest: Seq<(Seq<char>, Seq<char>)>,
)
    ensures
        first_input(seq![(seq!['i', 'n', 'p', 'u', 't'], value)] + rest) == Some(value),
{
    let pairs = seq![(seq!['i', 'n', 'p', 'u', 't'], value)] + rest;
    assert(pairs[0] == (seq!['i', 'n', 'p', 'u', 't'], value));
    assert(pairs[0].0 =~= input_key());
}

/// A pair with any other name in front is passed over: the input is the one
/// the pairs after it carry.
pub proof fn leading_other_pair_is_skipped(
    name: Seq<char>,
    value: Seq<char>,
    rest: Seq<(Seq<char>, Seq<char>)>,
)
    requires
        name != seq!['i', 'n', 'p', 'u', 't'],
    ensures
        first_input(seq![(name, value)] + rest) == first_input(rest),
{
    let pairs = seq![(name, value)] + rest;
    assert(pairs[0] == (name, value));
    assert(pairs.drop_first() =~= rest);
}

/// Only the first `input` parameter counts: parameters that follow it do not
/// change the input, and parameters before any `input` parameter do not
/// supply one.
pub proof fn first_input_of_concatenation(
    front: Seq<(Seq<char>, Seq<char>)>,
    back: Seq<(Seq<char>, Seq<char>)>,
)
    ensures
        first_input(front) is Some ==> first_input(front + back) == first_input(front),
        first_input(front) is None ==> first_input(front + back) == first_input(back),
    decreases front.len(),
{
    if front.len() == 0 {
        assert(front + back =~= back);
    } else {
        assert((front + back)[0] == front[0]);
        assert((front + back).drop_first() =~= front.drop_first() + back);
        first_input_of_concatenation(front.drop_first(), back);
    }
}

/// The input text that a query string carries: the value of its first
/// `input` parameter.
pub open spec fn query_input_of(query: Option<Seq<char>>) -> Option<Seq<char>> {
    match query {
        None => None,
        Some(q) => first_input(urlencoded_pairs_of(q)),
    }
}

/// Without a query string there is no input; with one, the input is the
/// value of the first `input` pair that form_urlencoded decodes from it.
pub proof fn query_input_is_first_decoded_input(query: Seq<char>)
    ensures
        query_input_of(None) is None,
        query_input_of(Some(query)) == first_input(urlencoded_pairs_of(query)),
{
}

/// Finds the value of the first pair named `input`.
pub fn find_input(pairs: &Vec<(String, String)>) -> (found: Option<String>)
    ensures
        match found {
            None => first_input(pairs_view(pairs@)) is None,
            Some(v) => first_input(pairs_view(pairs@)) == Some(v@),
        },
{
    let ghost all = pairs_view(pairs@);
    assert(all.skip(0) =~= all);
    let mut i: usize = 0;
    while i < pairs.len()
        invariant
            i <= pairs@.len(),
            all == pairs_view(pairs@),
            first_input(all) == first_input(all.skip(i as int)),
        decreases pairs@.len() - i,
    {
        proof {
            reveal_strlit("input");
            assert("input"@ =~= input_key());
        }
        let ghost rest = all.skip(i as int);
        assert(all.len() == pairs@.len());
        assert(rest.len() > 0);
        assert(rest[0] == all[i as int]);
        assert(all[i as int] == (pairs@[i as int].0@, pairs@[i as int].1@));
        assert(rest.drop_first() =~= all.skip(i + 1));
        if str_eq(pairs[i].0.as_str(), "input") {
            let v = pairs[i].1.clone();
            assert(rest[0].0 == input_key());
            assert(v@ == rest[0].1);
            assert(first_input(rest) == Some(v@));
            return Some(v);
        }
        i = i + 1;
    }
    assert(all.skip(i as int).len() == 0);
    None
}

/// The input text of a query string: the value of its first `input`
/// parameter, `None` when there is no query string or no such parameter.
pub fn query_input(query: Option<&str>) -> (input: Option<String>)
    ensures
        match input {
            None => query_input_of(match query { Some(q) => Some(q@), None => None }) is None,
            Some(v) => query_input_of(match query { Some(q) => Some(q@), None => None }) == Some(v@),
        },
{
    match query {
        None => None,
        Some(q) => {
            let pairs = urlencoded_pairs(q);
            find_input(&pairs)
        },
    }
}

} // verus!
