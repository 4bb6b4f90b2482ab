use std::collections::HashMap;

use paper_api::embedding::{
    encode_query, extract_query_string, extract_query_string_from_paper,
    extract_query_string_from_search_result, inference_inputs, model_token_ids, Embeddable,
    MAX_TOKENS,
};
use paper_api::fatcat::{Abstract, Biblio, Fulltext, SearchResponse, SearchResult};
use paper_api::inference::{build_infer_request, tensor_contents};
use paper_api::model::{Externalids, OpenAccessInfo, Paper};
use paper_api::time::Timestamp;
use tokenizers::models::wordlevel::WordLevel;
use tokenizers::pre_tokenizers::whitespace::Whitespace;
use tokenizers::Tokenizer;

fn bare_biblio(title: &str) -> Biblio {
    Biblio {
        affiliations: None,
        contrib_count: None,
        contrib_names: None,
        doi: None,
        doi_prefix: None,
        doi_registrar: None,
        issns: None,
        lang_code: None,
        license_slug: None,
        publisher: None,
        release_date: None,
        release_ident: None,
        release_stage: None,
        release_type: None,
        release_year: None,
        title: title.to_string(),
    }
}

fn bare_hit(key: &str, title: &str, abstracts: Vec<&str>, highlights: Vec<&str>) -> SearchResult {
    SearchResult {
        collapse_key: key.to_string(),
        work_ident: String::new(),
        access: vec![],
        abstracts: abstracts
            .into_iter()
            .map(|b| Abstract { body: b.to_string(), lang_code: None })
            .collect(),
        biblio: bare_biblio(title),
        fulltext: Fulltext {
            file_mimetype: None,
            access_type: None,
            file_sha1: None,
            size_bytes: None,
            lang_code: None,
            file_ident: None,
            access_url: None,
            release_ident: None,
            thumbnail_url: None,
        },
        doc_type: String::new(),
        doc_index_ts: String::new(),
        key: String::new(),
        releases: vec![],
        tags: vec![],
        _highlights: highlights.into_iter().map(|s| s.to_string()).collect(),
        _collapsed: vec![],
        _collapsed_count: 0,
    }
}

fn stored_paper(title: &str, abstract_text: &str) -> Paper {
    Paper {
        corpusid: 1,
        openaccessinfo: OpenAccessInfo {
            externalids: Externalids { mag: None, acl: None, doi: None, pubmedcentral: None, arxiv: None },
            license: None,
            url: None,
            status: None,
        },
        title: title.to_string(),
        abstract_text: abstract_text.to_string(),
        updated: Timestamp::unix_epoch(),
    }
}

fn small_tokenizer() -> Tokenizer {
    let mut vocab = HashMap::new();
    vocab.insert("[UNK]".to_string(), 0u32);
    vocab.insert("graph".to_string(), 7u32);
    vocab.insert("neural".to_string(), 9u32);
    let model = WordLevel::builder().vocab(vocab).unk_token("[UNK]".to_string()).build().unwrap();
    let mut tokenizer = Tokenizer::new(model);
    tokenizer.with_pre_tokenizer(Whitespace::default());
    tokenizer
}

#[test]
fn query_of_hit_uses_first_abstract() {
    let h = bare_hit("k", "Title", vec!["first", "second"], vec!["hl"]);
    assert_eq!(extract_query_string_from_search_result(h), "Title[SEP]first");
}

#[test]
fn query_of_hit_falls_back_to_highlight_then_nothing() {
    let h = bare_hit("k", "Title", vec![], vec!["hl one", "hl two"]);
    assert_eq!(extract_query_string_from_search_result(h), "Title[SEP]hl one");
    let h = bare_hit("k", "Title", vec![], vec![]);
    assert_eq!(extract_query_string_from_search_result(h), "Title[SEP]");
}

#[test]
fn query_of_paper_is_title_and_abstract() {
    assert_eq!(extract_query_string_from_paper(stored_paper("T", "A")), "T[SEP]A");
    assert_eq!(extract_query_string_from_paper(stored_paper("", "")), "[SEP]");
}

#[test]
fn query_of_either_embeddable() {
    let h = bare_hit("k", "H", vec!["B"], vec![]);
    assert_eq!(extract_query_string(Embeddable::SearchResult(h)), "H[SEP]B");
    assert_eq!(extract_query_string(Embeddable::Paper(stored_paper("P", "Q"))), "P[SEP]Q");
}

#[test]
fn inputs_for_a_page_of_hits() {
    let page = SearchResponse {
        query_type: String::new(),
        count_returned: 2,
        count_found: 2,
        offset: 0,
        limit: 2,
        deep_page_limit: 0,
        query_time_ms: 0,
        query_wall_time_ms: 0,
        results: vec![bare_hit("a", "T1", vec!["x"], vec![]), bare_hit("b", "T2", vec![], vec!["y"])],
    };
    let inputs = inference_inputs(&page);
    assert_eq!(inputs, vec![
        ("a".to_string(), "T1[SEP]x".to_string()),
        ("b".to_string(), "T2[SEP]y".to_string()),
    ]);
}

#[test]
fn tokens_are_truncated_to_the_model_limit() {
    let ids: Vec<u32> = (0..600).collect();
    let tokens = model_token_ids(Some(ids));
    assert_eq!(tokens.len(), MAX_TOKENS);
    assert_eq!(tokens[0], 0);
    assert_eq!(tokens[511], 511);
    assert_eq!(model_token_ids(Some(vec![3, 4_000_000_000])), vec![3i64, 4_000_000_000i64]);
    assert!(model_token_ids(None).is_empty());
}

#[test]
fn tokenizer_ids_reach_the_model() {
    let tokens = encode_query(&small_tokenizer(), "neural graph unknown".to_string());
    assert_eq!(tokens, vec![9i64, 7, 0]);
}

#[test]
fn tensor_bytes_are_little_endian() {
    let bytes = tensor_contents(&vec![1i64, -1, 258]);
    assert_eq!(bytes.len(), 24);
    assert_eq!(&bytes[0..8], &1i64.to_le_bytes());
    assert_eq!(&bytes[8..16], &[0xffu8; 8]);
    assert_eq!(&bytes[16..24], &258i64.to_le_bytes());
    for (i, v) in [1i64, -1, 258].iter().enumerate() {
        let mut b = [0u8; 8];
        b.copy_from_slice(&bytes[8 * i..8 * i + 8]);
        assert_eq!(i64::from_le_bytes(b), *v);
    }
}

#[test]
fn request_for_the_embedding_model() {
    let req = build_infer_request(&vec![101i64, 2003, 102]);
    assert_eq!(req.id, "");
    assert_eq!(req.model_name, "specter_proximity");
    assert_eq!(req.model_version, "1");
    assert_eq!(req.inputs.len(), 2);
    assert_eq!(req.inputs[0].name, "input_ids");
    assert_eq!(req.inputs[1].name, "attention_mask");
    for t in req.inputs.iter() {
        assert_eq!(t.shape, vec![1i64, 3]);
        assert_eq!(t.datatype, "INT64");
    }
    assert_eq!(req.outputs, vec!["embedding".to_string()]);
    let ids: Vec<u8> = [101i64, 2003, 102].iter().flat_map(|t| t.to_le_bytes()).collect();
    let mask: Vec<u8> = [1i64, 1, 1].iter().flat_map(|t| t.to_le_bytes()).collect();
    assert_eq!(req.raw_input_contents, vec![ids, mask]);
}

#[test]
fn request_for_no_tokens() {
    let req = build_infer_request(&Vec::new());
    assert_eq!(req.inputs[0].shape, vec![1i64, 0]);
    assert!(req.raw_input_contents[0].is_empty());
    assert!(req.raw_input_contents[1].is_empty());
}
