//! What the service asks of the embedding model: the text that stands for a
//! paper, the token ids of that text, and the inference request that carries
//! them to the model server.

use vstd::prelude::*;
use vstd::string::*;
use crate::fatcat::{SearchResponse, SearchResult};
use crate::model::Paper;

verus! {

#[verifier::external_type_specification]
#[verifier::external_body]
pub struct ExTokenizer(tokenizers::Tokenizer);

/// The most tokens that the model takes.
pub const MAX_TOKENS: usize = 512;

/// The separator token that the model expects between a title and the text
/// that follows it.
pub open spec fn separator() -> Seq<char> {
    seq!['[', 'S', 'E', 'P', ']']
}

/// The model's input text: the title, the separator, then the rest.
pub open spec fn query_text(title: Seq<char>, rest: Seq<char>) -> Seq<char> {
    title + separator() + rest
}

/// What follows a search hit's title: the body of its first abstract, else its
/// first highlight, else nothing.
pub open spec fn search_result_context(sr: SearchResult) -> Seq<char> {
    if sr.abstracts@.len() > 0 {
        sr.abstracts@[0].body@
    } else if sr._highlights@.len() > 0 {
        sr._highlights@[0]@
    } else {
        Seq::empty()
    }
}

fn query_string(title: &String, rest: &str) -> (res: String)
    ensures
        res@ == query_text(title@, rest@),
{
    proof {
        reveal_strlit("[SEP]");
    }
    title.clone().concat("[SEP]").concat(rest)
}

fn search_result_query(sr: &SearchResult) -> (res: String)
    ensures
        res@ == query_text(sr.biblio.title@, search_result_context(*sr)),
{
    if sr.abstracts.len() > 0 {
        query_string(&sr.biblio.title, sr.abstracts[0].body.as_str())
    } else if sr._highlights.len() > 0 {
        query_string(&sr.biblio.title, sr._highlights[0].as_str())
    } else {
        proof {
            reveal_strlit("");
        }
        query_string(&sr.biblio.title, "")
    }
}

/// The model's input text for a search hit.
pub fn extract_query_string_from_search_result(paper: SearchResult) -> (res: String)
    ensures
        res@ == query_text(paper.biblio.title@, search_result_context(paper)),
{
    search_result_query(&paper)
}

/// The model's input text for a stored paper: its title, the separator, and
/// its abstract.
pub fn extract_query_string_from_paper(paper: Paper) -> (res: String)
    ensures
        res@ == query_text(paper.title@, paper.abstract_text@),
{
    query_string(&paper.title, paper.abstract_text.as_str())
}

/// Something that can be embedded.
pub enum Embeddable {
    SearchResult(SearchResult),
    Paper(Paper),
}

/// The model's input text for either kind of embeddable.
pub fn extract_query_string(from: Embeddable) -> (res: String)
    ensures
        match from {
            Embeddable::SearchResult(sr) => res@ == query_text(sr.biblio.title@, search_result_context(sr)),
            Embeddable::Paper(p) => res@ == query_text(p.title@, p.abstract_text@),
        },
{
    match from {
        Embeddable::SearchResult(res) => extract_query_string_from_search_result(res),
        Embeddable::Paper(paper) => extract_query_string_from_paper(paper),
    }
}

/// For each hit of a search, in order, its collapse key and its model input
/// text: what the service sends to the model for a page of results.
pub fn inference_inputs(response: &SearchResponse) -> (res: Vec<(String, String)>)
    ensures
        res@.len() == response.results@.len(),
        forall|i: int|
            0 <= i < res@.len() ==> {
                &&& (#[trigger] res@[i]).0@ == response.results@[i].collapse_key@
                &&& res@[i].1@ == query_text(
                    response.results@[i].biblio.title@,
                    search_result_context(response.results@[i]),
                )
            },
{
    let mut res: Vec<(String, String)> = Vec::new();
    let mut i: usize = 0;
    while i < response.results.len()
        invariant
            i <= response.results@.len(),
            res@.len() == i,
            forall|j: int|
                0 <= j < i ==> {
                    &&& (#[trigger] res@[j]).0@ == response.results@[j].collapse_key@
                    &&& res@[j].1@ == query_text(
                        response.results@[j].biblio.title@,
                        search_result_context(response.results@[j]),
                    )
                },
        decreases response.results@.len() - i,
    {
        let r = &response.results[i];
        res.push((r.collapse_key.clone(), search_result_query(r)));
        i += 1;
    }
    res
}

/// The model's input text is the title, then the five characters `[SEP]`,
/// then the rest, each unchanged.
pub proof fn lemma_query_text_layout(title: Seq<char>, rest: Seq<char>)
    ensures
        ({
            let q = query_text(title, rest);
            &&& q.len() == title.len() + 5 + rest.len()
            &&& q.subrange(0, title.len() as int) == title
            &&& q.subrange(title.len() as int, title.len() + 5int) == seq!['[', 'S', 'E', 'P', ']']
            &&& q.subrange(title.len() + 5int, q.len() as int) == rest
        }),
{
    let q = query_text(title, rest);
    assert(q.subrange(0, title.len() as int) =~= title);
    assert(q.subrange(title.len() as int, title.len() + 5int) =~= seq!['[', 'S', 'E', 'P', ']']);
    assert(q.subrange(title.len() + 5int, q.len() as int) =~= rest);
}

/// What follows a hit's title is the body of its first abstract where it has
/// one, else its first highlight where it has one, else nothing.
pub proof fn lemma_hit_context(sr: SearchResult)
    ensures
        sr.abstracts@.len() > 0 ==> search_result_context(sr) == sr.abstracts@[0].body@,
        sr.abstracts@.len() == 0 && sr._highlights@.len() > 0 ==> search_result_context(sr)
            == sr._highlights@[0]@,
        sr.abstracts@.len() == 0 && sr._highlights@.len() == 0 ==> search_result_context(sr).len() == 0,
{
}

/// The model receives no tokens where the tokenizer failed, and otherwise the
/// tokenizer's ids in order, as 64-bit integers, cut after `MAX_TOKENS`.
pub proof fn lemma_model_tokens_layout(ids: Option<Seq<u32>>)
    ensures
        ids is None ==> model_tokens(ids).len() == 0,
        ids is Some ==> {
            let s = ids->Some_0;
            &&& model_tokens(ids).len() == (if s.len() <= 512 { s.len() } else { 512 })
            &&& forall|i: int| 0 <= i < model_tokens(ids).len() ==> #[trigger] model_tokens(ids)[i] == s[i] as i64
        },
{
}

/// The tokens that the model receives for what the tokenizer gave: the first
/// `MAX_TOKENS` ids as 64-bit integers, or none where the tokenizer failed.
pub open spec fn model_tokens(ids: Option<Seq<u32>>) -> Seq<i64> {
    match ids {
        Some(s) => Seq::new(
            if s.len() <= MAX_TOKENS {
                s.len()
            } else {
                MAX_TOKENS as nat
            },
            |i: int| s[i] as i64,
        ),
        None => Seq::empty(),
    }
}

/// Whether these ids (or `None`, an error) are an outcome of
/// `Tokenizer::encode` on this text without special tokens. A relation, not a
/// function: a tokenizer with dropout draws random numbers, so one text may
/// have several outcomes.
pub uninterp spec fn tokenizes_to(tokenizer: tokenizers::Tokenizer, text: Seq<char>, ids: Option<Seq<u32>>) -> bool;

/// Calls `Tokenizer::encode` on the text without special tokens and takes the
/// ids of the encoding. Claims only that the result is an outcome of encoding
/// this very text with this tokenizer; which ids that is, is left open: they
/// depend on the vocabulary loaded at run time and may depend on chance.
#[verifier::external_body]
fn tokenizer_encode(tokenizer: &tokenizers::Tokenizer, text: String) -> (res: Option<Vec<u32>>)
    ensures
        tokenizes_to(*tokenizer, text@, res.deep_view()),
{
    match tokenizer.encode(text, false) {
        Ok(encoding) => Some(encoding.get_ids().to_vec()),
        Err(_) => None,
    }
}

/// The tokens that the model receives for what the tokenizer gave.
pub fn model_token_ids(ids: Option<Vec<u32>>) -> (res: Vec<i64>)
    ensures
        res@ == model_tokens(ids.deep_view()),
{
    match ids {
        Some(ids) => {
            let n = if ids.len() <= MAX_TOKENS {
                ids.len()
            } else {
                MAX_TOKENS
            };
            let mut res: Vec<i64> = Vec::new();
            let mut i: usize = 0;
            while i < n
                invariant
                    i <= n,
                    n <= ids@.len(),
                    n == (if ids@.len() <= MAX_TOKENS {
                        ids@.len()
                    } else {
                        MAX_TOKENS as nat
                    }),
                    res@.len() == i,
                    forall|j: int| 0 <= j < i ==> res@[j] == ids@[j] as i64,
                decreases n - i,
            {
                res.push(ids[i] as i64);
                i += 1;
            }
            assert(res@ =~= model_tokens(Some(ids@)));
            res
        },
        None => Vec::new(),
    }
}

/// Tokenizes a text for the model: the result is what `model_token_ids` makes
/// of an outcome of encoding this text, so at most `MAX_TOKENS` tokens.
pub fn encode_query(tokenizer: &tokenizers::Tokenizer, text: String) -> (res: Vec<i64>)
    ensures
        exists|ids: Option<Seq<u32>>| tokenizes_to(*tokenizer, text@, ids) && res@ == model_tokens(ids),
        res@.len() <= MAX_TOKENS,
{
    let ids = tokenizer_encode(tokenizer, text);
    model_token_ids(ids)
}

} // verus!
