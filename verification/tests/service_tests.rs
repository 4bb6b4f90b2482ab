use paper_api::model::{Externalids, OpenAccessInfo, Paper};
use paper_api::payload::{PayloadMap, PayloadValue, ValueKind};
use paper_api::service::{
    collection_plan, get_paper_response, lookup_plan, paper_collection, prepare_insert, search_paper_response,
    search_plan, try_get_paper_response, try_prepare_insert, try_search_paper_response, CollectionPlan,
    ServiceError,
};
use paper_api::surface;
use paper_api::time::Timestamp;

fn record(id: u64, title: &str) -> Paper {
    Paper {
        corpusid: id,
        openaccessinfo: OpenAccessInfo {
            externalids: Externalids {
                mag: Some("m".to_string()),
                acl: None,
                doi: None,
                pubmedcentral: None,
                arxiv: None,
            },
            license: Some("CC0".to_string()),
            url: None,
            status: None,
        },
        title: title.to_string(),
        abstract_text: "abs".to_string(),
        updated: Timestamp::parse_rfc3339("2021-01-01T00:00:00Z").unwrap(),
    }
}

fn request(corpusid: &str, updated: &str, with_access: bool) -> surface::InsertPaperRequest {
    surface::InsertPaperRequest {
        paper: Some(surface::Paper {
            corpusid: corpusid.to_string(),
            openaccessinfo: if with_access {
                Some(surface::OpenAccessInfo {
                    externalids: Some(surface::Externalids {
                        mag: "m".to_string(),
                        acl: "a".to_string(),
                        doi: "d".to_string(),
                        pmid: "p".to_string(),
                        arxiv: "x".to_string(),
                    }),
                    license: "L".to_string(),
                    url: "U".to_string(),
                    status: "S".to_string(),
                })
            } else {
                None
            },
            title: "Title".to_string(),
            abstract_text: "Abstract".to_string(),
            updated: updated.to_string(),
            fulltext: String::new(),
        }),
    }
}

#[test]
fn collection_name() {
    assert_eq!(paper_collection(), "papers");
}

#[test]
fn search_answers_each_stored_paper_in_order() {
    let payloads = vec![record(3, "c").to_payload(), record(1, "a").to_payload()];
    let r = try_search_paper_response(&payloads).unwrap();
    assert_eq!(r.papers.len(), 2);
    assert_eq!(r.papers[0].corpusid, "3");
    assert_eq!(r.papers[0].title, "c");
    assert_eq!(r.papers[1].corpusid, "1");
    assert_eq!(r.papers[1].updated, "2021-01-01T00:00:00+00:00");
    assert_eq!(r.papers[1].openaccessinfo.as_ref().unwrap().externalids.as_ref().unwrap().mag, "m");
    assert!(try_search_paper_response(&Vec::new()).unwrap().papers.is_empty());
}

#[test]
fn search_refuses_a_payload_without_paper() {
    let payloads = vec![record(3, "c").to_payload(), PayloadMap::new()];
    assert!(try_search_paper_response(&payloads).is_none());
}

#[test]
fn lookup_of_nothing_is_not_found() {
    match try_get_paper_response(&Vec::new()) {
        Some(Err(ServiceError::NotFound(msg))) => assert_eq!(msg, "paper not found"),
        _ => panic!("expected not found"),
    }
}

#[test]
fn lookup_answers_first_payload() {
    let payloads = vec![record(9, "nine").to_payload(), PayloadMap::new()];
    match try_get_paper_response(&payloads) {
        Some(Ok(r)) => {
            let p = r.paper.unwrap();
            assert_eq!(p.corpusid, "9");
            assert_eq!(p.title, "nine");
        },
        _ => panic!("expected a paper"),
    }
    let mut broken = PayloadMap::new();
    broken.insert("corpusid".to_string(), PayloadValue { kind: Some(ValueKind::Integer(9)) });
    assert!(try_get_paper_response(&vec![broken]).is_none());
}

#[test]
fn insert_prepares_point_payload_and_answer() {
    let prep = try_prepare_insert(request("0042", "1996-12-19T16:39:57-08:00", true)).unwrap();
    assert_eq!(prep.point_id, 42);
    assert_eq!(prep.key, "42");
    assert_eq!(prep.query, "Title[SEP]Abstract");
    assert_eq!(prep.response.corpusid, "0042");
    assert_eq!(prep.paper.updated.seconds(), 851042397);
    assert_eq!(prep.paper.openaccessinfo.externalids.pubmedcentral.as_deref(), Some("p"));
    let back = Paper::try_from_payload(&prep.payload).unwrap();
    assert_eq!(back.corpusid, 42);
    assert_eq!(back.title, "Title");
}

#[test]
fn insert_with_unreadable_time_stores_the_epoch() {
    let prep = try_prepare_insert(request("5", "last tuesday", true)).unwrap();
    assert_eq!(prep.paper.updated.seconds(), 0);
    assert_eq!(prep.paper.updated.subsec_nanos(), 0);
}

#[test]
fn insert_refuses_incomplete_requests() {
    assert!(try_prepare_insert(surface::InsertPaperRequest { paper: None }).is_none());
    assert!(try_prepare_insert(request("forty-two", "1996-12-19T16:39:57Z", true)).is_none());
    assert!(try_prepare_insert(request("42", "1996-12-19T16:39:57Z", false)).is_none());
}

#[test]
fn inserted_paper_reads_back() {
    let prep = try_prepare_insert(request("215849302", "2023-05-01T12:30:00Z", true)).unwrap();
    let got = match try_get_paper_response(&vec![prep.payload]) {
        Some(Ok(r)) => r.paper.unwrap(),
        _ => panic!("expected a paper"),
    };
    assert_eq!(got.corpusid, "215849302");
    assert_eq!(got.title, "Title");
    assert_eq!(got.abstract_text, "Abstract");
    assert_eq!(got.updated, "2023-05-01T12:30:00+00:00");
    assert_eq!(got.fulltext, "");
    let oai = got.openaccessinfo.unwrap();
    assert_eq!((oai.license.as_str(), oai.url.as_str(), oai.status.as_str()), ("L", "U", "S"));
    let ids = oai.externalids.unwrap();
    assert_eq!(
        (ids.mag.as_str(), ids.acl.as_str(), ids.doi.as_str(), ids.pmid.as_str(), ids.arxiv.as_str()),
        ("m", "a", "d", "p", "x")
    );
}

#[test]
fn collection_plans() {
    assert!(matches!(collection_plan(true, "papers", false), CollectionPlan::AlreadyExists));
    assert!(matches!(collection_plan(true, "papers", true), CollectionPlan::AlreadyExists));
    assert!(matches!(collection_plan(false, "papers", true), CollectionPlan::CreateGiven));
    match collection_plan(false, "papers", false) {
        CollectionPlan::CreateDefault(c) => {
            assert_eq!(c.collection_name, "papers");
            assert_eq!(c.vector_size, 768);
            assert_eq!(c.distance, 3);
        },
        _ => panic!("expected the default configuration"),
    }
}

#[test]
fn internal_error_carries_its_message() {
    let e = ServiceError::Internal("model server down".to_string());
    match e {
        ServiceError::Internal(m) => assert_eq!(m, "model server down"),
        ServiceError::NotFound(_) => panic!("wrong variant"),
    }
}

#[test]
fn leap_second_with_fraction_reads_back() {
    let prep = try_prepare_insert(request("11", "2016-12-31T23:59:60.5Z", true)).unwrap();
    let back = Paper::try_from_payload(&prep.payload).unwrap();
    assert_eq!(back.updated, prep.paper.updated);
    assert_eq!(back.updated.subsec_nanos(), 1_500_000_000);
}

#[test]
fn time_before_year_zero_does_not_read_back() {
    let prep = try_prepare_insert(request("12", "0000-01-01T00:00:00+01:00", true)).unwrap();
    assert!(prep.paper.updated.seconds() < -62167219200);
    assert!(Paper::try_from_payload(&prep.payload).is_none());
}

#[test]
fn same_insert_twice_prepares_the_same_point() {
    let a = try_prepare_insert(request("0042", "2020-02-02T02:02:02Z", true)).unwrap();
    let b = try_prepare_insert(request("0042", "2020-02-02T02:02:02Z", true)).unwrap();
    assert_eq!(a.point_id, b.point_id);
    assert_eq!(a.key, b.key);
    assert_eq!(a.query, b.query);
    assert_eq!(a.response.corpusid, b.response.corpusid);
    assert_eq!(a.paper.updated, b.paper.updated);
    let pa = Paper::try_from_payload(&a.payload).unwrap();
    let pb = Paper::try_from_payload(&b.payload).unwrap();
    assert_eq!((pa.corpusid, pa.title, pa.updated), (pb.corpusid, pb.title, pb.updated));
}

#[test]
fn forms_with_preconditions_agree_with_the_total_ones() {
    let payloads = vec![record(3, "c").to_payload()];
    let r = search_paper_response(&payloads);
    assert_eq!(r.papers.len(), 1);
    assert_eq!(r.papers[0].title, "c");
    match get_paper_response(&payloads) {
        Ok(g) => assert_eq!(g.paper.unwrap().corpusid, "3"),
        Err(_) => panic!("expected a paper"),
    }
    match get_paper_response(&Vec::new()) {
        Err(ServiceError::NotFound(msg)) => assert_eq!(msg, "paper not found"),
        _ => panic!("expected not found"),
    }
    let prep = prepare_insert(request("8", "2020-01-01T00:00:00Z", true));
    assert_eq!(prep.point_id, 8);
    assert_eq!(prep.key, "8");
}

#[test]
fn search_and_lookup_plans() {
    let plan = search_plan(surface::SearchPaperRequest { query: "graphs".to_string(), limit: 10, top_k: 3 });
    assert_eq!(plan.query, "graphs");
    assert_eq!(plan.key, "search-query");
    assert_eq!(plan.collection_name, "papers");
    assert_eq!(plan.limit, 10);
    assert!(plan.with_payload);
    let lookup = lookup_plan(&surface::GetPaperRequest { corpusid: "+00917".to_string() });
    assert_eq!(lookup.point_id, 917);
    assert_eq!(lookup.collection_name, "papers");
    assert!(lookup.with_payload && lookup.with_vectors);
}
