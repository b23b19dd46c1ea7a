//! The token list and its ordering.

use vstd::prelude::*;
use vstd::seq_lib::*;
use crate::normalizer::Address;

verus! {

/// A token known to the ledger.
#[derive(Clone, Debug, PartialEq, Eq)]
pub struct Token {
    pub id: u16,
    pub address: Address,
    pub symbol: String,
}

/// Whether `tokens` is in ascending order of id.
pub open spec fn sorted_by_id(tokens: Seq<Token>) -> bool {
    forall|i: int, j: int| 0 <= i <= j < tokens.len() ==> tokens[i].id <= tokens[j].id
}

/// The tokens of `tokens` whose id is `id`, in the order in which they stand.
pub open spec fn with_id(tokens: Seq<Token>, id: u16) -> Seq<Token> {
    tokens.filter(|token: Token| token.id == id)
}

proof fn lemma_with_id_push(tokens: Seq<Token>, token: Token, id: u16)
    ensures
        with_id(tokens.push(token), id) == if token.id == id {
            with_id(tokens, id).push(token)
        } else {
            with_id(tokens, id)
        },
{
    reveal(Seq::filter);
    assert(tokens.push(token).drop_last() =~= tokens);
}

proof fn lemma_with_id_absent(tokens: Seq<Token>, id: u16)
    requires
        forall|k: int| 0 <= k < tokens.len() ==> tokens[k].id != id,
    ensures
        with_id(tokens, id) == Seq::<Token>::empty(),
    decreases tokens.len(),
{
    reveal(Seq::filter);
    if tokens.len() > 0 {
        lemma_with_id_absent(tokens.drop_last(), id);
    }
}

proof fn lemma_with_id_insert(tokens: Seq<Token>, at: int, token: Token, id: u16)
    requires
        0 <= at <= tokens.len(),
        forall|k: int| 0 <= k < at ==> tokens[k].id < token.id,
    ensures
        with_id(tokens.insert(at, token), id) == if token.id == id {
            seq![token] + with_id(tokens, id)
        } else {
            with_id(tokens, id)
        },
{
    let front = tokens.subrange(0, at);
    let back = tokens.subrange(at, tokens.len() as int);
    let pred = |token: Token| token.id == id;
    assert(tokens =~= front + back);
    assert(tokens.insert(at, token) =~= front.push(token) + back);
    Seq::filter_distributes_over_add(front, back, pred);
    Seq::filter_distributes_over_add(front.push(token), back, pred);
    lemma_with_id_push(front, token, id);
    if token.id == id {
        lemma_with_id_absent(front, id);
        assert(with_id(front, id).push(token) =~= seq![token]);
        assert(with_id(tokens, id) =~= with_id(back, id));
    }
}

/// The first position of `sorted` at which a token of id `id` can be put
/// without breaking the order: every token before it has a smaller id.
fn insertion_point(sorted: &Vec<Token>, id: u16) -> (at: usize)
    requires
        sorted_by_id(sorted@),
    ensures
        at <= sorted@.len(),
        forall|k: int| 0 <= k < at ==> sorted@[k].id < id,
        forall|k: int| at <= k < sorted@.len() ==> id <= sorted@[k].id,
{
    let mut at: usize = 0;
    while at < sorted.len() && sorted[at].id < id
        invariant
            at <= sorted@.len(),
            sorted_by_id(sorted@),
            forall|k: int| 0 <= k < at ==> sorted@[k].id < id,
        decreases sorted@.len() - at,
    {
        at += 1;
    }
    at
}

/// The same tokens in ascending order of id. Tokens of one id keep the
/// order in which they came.
pub fn sort_tokens(tokens: Vec<Token>) -> (sorted: Vec<Token>)
    ensures
        sorted_by_id(sorted@),
        sorted@.to_multiset() == tokens@.to_multiset(),
        forall|id: u16| #[trigger] with_id(sorted@, id) == with_id(tokens@, id),
{
    let mut rest = tokens;
    let mut sorted: Vec<Token> = Vec::new();
    proof {
        sorted@.to_multiset_ensures();
        assert(sorted@.to_multiset() =~= vstd::multiset::Multiset::<Token>::empty());
        assert(sorted@.to_multiset().add(rest@.to_multiset()) =~= tokens@.to_multiset());
        assert forall|id: u16| #[trigger]
            with_id(sorted@, id) == Seq::<Token>::empty() && with_id(rest@, id) + with_id(
                sorted@,
                id,
            ) == with_id(tokens@, id) by {
            lemma_with_id_absent(sorted@, id);
        }
    }
    while rest.len() > 0
        invariant
            sorted_by_id(sorted@),
            sorted@.to_multiset().add(rest@.to_multiset()) == tokens@.to_multiset(),
            forall|id: u16|
                with_id(rest@, id) + #[trigger] with_id(sorted@, id) == with_id(tokens@, id),
        decreases rest@.len(),
    {
        let ghost rest_before = rest@;
        let ghost sorted_before = sorted@;
        let token = rest.pop().unwrap();
        let at = insertion_point(&sorted, token.id);
        sorted.insert(at, token);
        proof {
            assert(rest_before =~= rest@.push(token));
            to_multiset_build(rest@, token);
            to_multiset_insert(sorted_before, at as int, token);
            assert(sorted@.to_multiset().add(rest@.to_multiset()) =~= sorted_before.to_multiset().add(
                rest_before.to_multiset(),
            ));
            assert forall|id: u16|
                with_id(rest@, id) + #[trigger] with_id(sorted@, id) == with_id(
                    tokens@,
                    id,
                ) by {
                lemma_with_id_push(rest@, token, id);
                lemma_with_id_insert(sorted_before, at as int, token, id);
                assert(with_id(rest_before, id) + with_id(sorted_before, id) == with_id(
                    tokens@,
                    id,
                ));
                assert(with_id(rest@, id) + with_id(sorted@, id) =~= with_id(rest_before, id)
                    + with_id(sorted_before, id));
            }
        }
    }
    proof {
        rest@.to_multiset_ensures();
        assert(rest@.to_multiset() =~= vstd::multiset::Multiset::<Token>::empty());
        assert(sorted@.to_multiset().add(rest@.to_multiset()) =~= sorted@.to_multiset());
        assert forall|id: u16| #[trigger] with_id(sorted@, id) == with_id(tokens@, id) by {
            lemma_with_id_absent(rest@, id);
            assert(with_id(rest@, id) + with_id(sorted@, id) =~= with_id(sorted@, id));
        }
    }
    sorted
}

} // verus!
