use paper_api::model::{Externalids, OpenAccessInfo, Paper};
use paper_api::payload::{decode_papers, PayloadMap, PayloadValue, ValueKind};
use paper_api::time::Timestamp;

fn text(s: &str) -> PayloadValue {
    PayloadValue { kind: Some(ValueKind::Text(s.to_string())) }
}

fn sample_paper() -> Paper {
    Paper {
        corpusid: 215849302,
        openaccessinfo: OpenAccessInfo {
            externalids: Externalids {
                mag: Some("3013890143".to_string()),
                acl: None,
                doi: Some("10.1000/xyz".to_string()),
                pubmedcentral: None,
                arxiv: Some("2004.07180".to_string()),
            },
            license: Some("CCBY".to_string()),
            url: None,
            status: Some("GREEN".to_string()),
        },
        title: "SPECTER".to_string(),
        abstract_text: "Representation learning".to_string(),
        updated: Timestamp::parse_rfc3339("2023-05-01T12:30:00Z").unwrap(),
    }
}

fn same_paper(a: &Paper, b: &Paper) -> bool {
    a.corpusid == b.corpusid
        && a.title == b.title
        && a.abstract_text == b.abstract_text
        && a.updated == b.updated
        && a.openaccessinfo.license == b.openaccessinfo.license
        && a.openaccessinfo.url == b.openaccessinfo.url
        && a.openaccessinfo.status == b.openaccessinfo.status
        && a.openaccessinfo.externalids.mag == b.openaccessinfo.externalids.mag
        && a.openaccessinfo.externalids.acl == b.openaccessinfo.externalids.acl
        && a.openaccessinfo.externalids.doi == b.openaccessinfo.externalids.doi
        && a.openaccessinfo.externalids.pubmedcentral == b.openaccessinfo.externalids.pubmedcentral
        && a.openaccessinfo.externalids.arxiv == b.openaccessinfo.externalids.arxiv
}

fn as_text(v: Option<&PayloadValue>) -> Option<String> {
    match v {
        Some(PayloadValue { kind: Some(ValueKind::Text(s)) }) => Some(s.clone()),
        _ => None,
    }
}

#[test]
fn map_get_after_insert() {
    let mut m = PayloadMap::new();
    assert!(m.get("a").is_none());
    m.insert("a".to_string(), text("one"));
    m.insert("b".to_string(), text("two"));
    assert_eq!(as_text(m.get("a")), Some("one".to_string()));
    assert_eq!(as_text(m.get("b")), Some("two".to_string()));
    assert!(m.get("c").is_none());
    assert_eq!(m.len(), 2);
}

#[test]
fn map_insert_replaces() {
    let mut m = PayloadMap::new();
    m.insert("a".to_string(), text("one"));
    m.insert("a".to_string(), text("uno"));
    assert_eq!(as_text(m.get("a")), Some("uno".to_string()));
    assert_eq!(m.len(), 1);
}

#[test]
fn map_first_entry_counts() {
    let m = PayloadMap {
        entries: vec![("k".to_string(), text("first")), ("k".to_string(), text("second"))],
    };
    assert_eq!(as_text(m.get("k")), Some("first".to_string()));
}

#[test]
fn paper_payload_layout() {
    let m = sample_paper().to_payload();
    assert_eq!(m.len(), 5);
    match m.get("corpusid") {
        Some(PayloadValue { kind: Some(ValueKind::Integer(i)) }) => assert_eq!(*i, 215849302),
        _ => panic!("corpusid is not an integer"),
    }
    assert_eq!(as_text(m.get("title")), Some("SPECTER".to_string()));
    assert_eq!(as_text(m.get("abstract")), Some("Representation learning".to_string()));
    assert_eq!(as_text(m.get("updated")), Some("2023-05-01T12:30:00+00:00".to_string()));
    let oai = match m.get("openaccessinfo") {
        Some(PayloadValue { kind: Some(ValueKind::Struct(o)) }) => o,
        _ => panic!("openaccessinfo is not a map"),
    };
    assert_eq!(oai.len(), 4);
    assert_eq!(as_text(oai.get("license")), Some("CCBY".to_string()));
    assert!(matches!(oai.get("url"), Some(PayloadValue { kind: None })));
    let ext = match oai.get("externalids") {
        Some(PayloadValue { kind: Some(ValueKind::Struct(e)) }) => e,
        _ => panic!("externalids is not a map"),
    };
    assert_eq!(ext.len(), 5);
    assert_eq!(as_text(ext.get("arxiv")), Some("2004.07180".to_string()));
    assert!(matches!(ext.get("acl"), Some(PayloadValue { kind: None })));
}

#[test]
fn paper_payload_roundtrip() {
    let p = sample_paper();
    let back = Paper::try_from_payload(&p.to_payload()).unwrap();
    assert!(same_paper(&p, &back));
    let again = Paper::from_payload(&p.to_payload());
    assert!(same_paper(&p, &again));
    assert!(Paper::is_paper_payload(&p.to_payload()));
}

#[test]
fn large_corpus_id_survives_signed_storage() {
    let mut p = sample_paper();
    p.corpusid = u64::MAX - 5;
    let m = p.to_payload();
    match m.get("corpusid") {
        Some(PayloadValue { kind: Some(ValueKind::Integer(i)) }) => assert_eq!(*i, -6),
        _ => panic!("corpusid is not an integer"),
    }
    assert_eq!(Paper::try_from_payload(&m).unwrap().corpusid, u64::MAX - 5);
}

#[test]
fn payload_with_missing_field_holds_no_paper() {
    let p = sample_paper().to_payload();
    let mut m = PayloadMap::new();
    for (k, _) in p.entries.iter() {
        if k != "title" {
            m.insert(k.clone(), match p.get(k).unwrap().kind.as_ref() {
                Some(ValueKind::Integer(i)) => PayloadValue { kind: Some(ValueKind::Integer(*i)) },
                Some(ValueKind::Text(s)) => text(s),
                _ => PayloadValue { kind: None },
            });
        }
    }
    assert!(Paper::try_from_payload(&m).is_none());
    assert!(!Paper::is_paper_payload(&m));
}

#[test]
fn payload_with_wrong_kind_or_bad_time_holds_no_paper() {
    let mut m = sample_paper().to_payload();
    m.insert("corpusid".to_string(), text("215849302"));
    assert!(Paper::try_from_payload(&m).is_none());

    let mut m = sample_paper().to_payload();
    m.insert("updated".to_string(), text("yesterday"));
    assert!(Paper::try_from_payload(&m).is_none());

    let mut m = sample_paper().to_payload();
    m.insert("title".to_string(), PayloadValue { kind: None });
    assert!(Paper::try_from_payload(&m).is_none());

    let mut m = sample_paper().to_payload();
    m.insert("openaccessinfo".to_string(), PayloadValue { kind: Some(ValueKind::Bool(true)) });
    assert!(Paper::try_from_payload(&m).is_none());
}

#[test]
fn optional_field_of_other_kind_holds_no_paper() {
    let mut ext = PayloadMap::new();
    for k in ["mag", "acl", "doi", "pubmedcentral"] {
        ext.insert(k.to_string(), PayloadValue { kind: None });
    }
    ext.insert("arxiv".to_string(), PayloadValue { kind: Some(ValueKind::Integer(1)) });
    let mut oai = PayloadMap::new();
    oai.insert("externalids".to_string(), PayloadValue { kind: Some(ValueKind::Struct(ext)) });
    for k in ["license", "url", "status"] {
        oai.insert(k.to_string(), PayloadValue { kind: None });
    }
    let mut m = sample_paper().to_payload();
    m.insert("openaccessinfo".to_string(), PayloadValue { kind: Some(ValueKind::Struct(oai)) });
    assert!(Paper::try_from_payload(&m).is_none());
}

#[test]
fn decode_papers_in_order_or_not_at_all() {
    let mut second = sample_paper();
    second.corpusid = 7;
    let payloads = vec![sample_paper().to_payload(), second.to_payload()];
    let papers = decode_papers(&payloads).unwrap();
    assert_eq!(papers.len(), 2);
    assert_eq!(papers[0].corpusid, 215849302);
    assert_eq!(papers[1].corpusid, 7);

    let bad = vec![sample_paper().to_payload(), PayloadMap::new()];
    assert!(decode_papers(&bad).is_none());
    assert_eq!(decode_papers(&Vec::new()).unwrap().len(), 0);
}

#[test]
fn payload_with_given_time_text() {
    let m = sample_paper().to_payload_with("some time".to_string());
    assert_eq!(m.len(), 5);
    assert_eq!(as_text(m.get("updated")), Some("some time".to_string()));
    assert!(Paper::try_from_payload(&m).is_none());
    let m = sample_paper().to_payload_with("2023-05-01T14:30:00+02:00".to_string());
    let back = Paper::try_from_payload(&m).unwrap();
    assert!(same_paper(&back, &sample_paper()));
}
