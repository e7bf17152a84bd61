//! Hint bar tokens: plain text and highlighted keys.

use vstd::prelude::*;
use crate::strs::to_owned;

verus! {

#[derive(Debug, Clone, PartialEq, Eq)]
pub enum HintToken {
    Text(String),
    Key(String),
}

/// A token as (is it a key, its text).
pub open spec fn token_view(t: HintToken) -> (bool, Seq<char>) {
    match t {
        HintToken::Text(s) => (false, s@),
        HintToken::Key(s) => (true, s@),
    }
}

pub open spec fn tokens_view(ts: Seq<HintToken>) -> Seq<(bool, Seq<char>)> {
    ts.map_values(|t: HintToken| token_view(t))
}

/// A plain-text token.
pub fn text_token(s: &str) -> (t: HintToken)
    ensures
        token_view(t) == (false, s@),
{
    HintToken::Text(to_owned(s))
}

/// A key token.
pub fn key_token(s: &str) -> (t: HintToken)
    ensures
        token_view(t) == (true, s@),
{
    HintToken::Key(to_owned(s))
}

/// Builds a token list from (is key, text) pairs.
pub fn tokens_from(spec_list: &[(bool, &str)]) -> (ts: Vec<HintToken>)
    ensures
        tokens_view(ts@) == spec_list@.map_values(|p: (bool, &str)| (p.0, p.1@)),
{
    let mut ts: Vec<HintToken> = Vec::new();
    let mut i: usize = 0;
    while i < spec_list.len()
        invariant
            i <= spec_list@.len(),
            tokens_view(ts@) == spec_list@.take(i as int).map_values(|p: (bool, &str)| (p.0, p.1@)),
        decreases spec_list@.len() - i,
    {
        let (is_key, text) = spec_list[i];
        let t = if is_key { key_token(text) } else { text_token(text) };
        let ghost before = ts@;
        ts.push(t);
        assert(tokens_view(ts@) =~= tokens_view(before).push(token_view(t)));
        assert(spec_list@.take(i + 1) =~= spec_list@.take(i as int).push(spec_list@[i as int]));
        i = i + 1;
    }
    assert(spec_list@.take(spec_list@.len() as int) =~= spec_list@);
    ts
}

} // verus!
