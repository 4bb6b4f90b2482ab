use paper_api::fatcat::{Abstract, Biblio, Fulltext, Release, SearchResult};
use paper_api::model::{OpenAccessInfo, Paper};
use paper_api::surface;
use paper_api::time::Timestamp;

fn client_ids() -> surface::Externalids {
    surface::Externalids {
        mag: "1".to_string(),
        acl: "2".to_string(),
        doi: "3".to_string(),
        pmid: "4".to_string(),
        arxiv: "5".to_string(),
    }
}

fn client_paper(corpusid: &str, updated: &str, ids: Option<surface::Externalids>) -> surface::Paper {
    surface::Paper {
        corpusid: corpusid.to_string(),
        openaccessinfo: Some(surface::OpenAccessInfo {
            externalids: ids,
            license: "CC0".to_string(),
            url: "https://example.org/p.pdf".to_string(),
            status: "GOLD".to_string(),
        }),
        title: "A title".to_string(),
        abstract_text: "An abstract".to_string(),
        updated: updated.to_string(),
        fulltext: "ignored".to_string(),
    }
}

fn empty_biblio(title: &str) -> Biblio {
    Biblio {
        affiliations: None,
        contrib_count: None,
        contrib_names: None,
        doi: None,
        doi_prefix: None,
        doi_registrar: None,
        issns: None,
        lang_code: None,
        license_slug: None,
        publisher: None,
        release_date: None,
        release_ident: None,
        release_stage: None,
        release_type: None,
        release_year: None,
        title: title.to_string(),
    }
}

fn empty_fulltext() -> Fulltext {
    Fulltext {
        file_mimetype: None,
        access_type: None,
        file_sha1: None,
        size_bytes: None,
        lang_code: None,
        file_ident: None,
        access_url: None,
        release_ident: None,
        thumbnail_url: None,
    }
}

fn release_with_arxiv(arxiv: Option<&str>) -> Release {
    Release {
        arxiv_id: arxiv.map(|s| s.to_string()),
        container_ident: None,
        container_issnl: None,
        container_name: None,
        doi: None,
        doi_prefix: None,
        doi_registrar: None,
        ident: None,
        release_date: None,
        release_stage: None,
        release_type: None,
        release_year: None,
        revision: None,
        title: None,
    }
}

fn hit() -> SearchResult {
    let mut biblio = empty_biblio("Attention is all you need");
    biblio.doi = Some("10.5555/3295222".to_string());
    biblio.license_slug = Some("cc-by".to_string());
    let mut fulltext = empty_fulltext();
    fulltext.access_url = Some("https://arxiv.org/pdf/1706.03762".to_string());
    SearchResult {
        collapse_key: "work_abc".to_string(),
        work_ident: "abc".to_string(),
        access: vec![],
        abstracts: vec![Abstract { body: "The dominant models".to_string(), lang_code: None }],
        biblio,
        fulltext,
        doc_type: "work".to_string(),
        doc_index_ts: "".to_string(),
        key: "k".to_string(),
        releases: vec![release_with_arxiv(Some("1706.03762")), release_with_arxiv(None)],
        tags: vec![],
        _highlights: vec![],
        _collapsed: vec![],
        _collapsed_count: 0,
    }
}

#[test]
fn open_access_from_client_with_ids() {
    let oai = OpenAccessInfo::from_surface(client_paper("1", "", Some(client_ids())).openaccessinfo.unwrap());
    assert_eq!(oai.externalids.mag.as_deref(), Some("1"));
    assert_eq!(oai.externalids.acl.as_deref(), Some("2"));
    assert_eq!(oai.externalids.doi.as_deref(), Some("3"));
    assert_eq!(oai.externalids.pubmedcentral.as_deref(), Some("4"));
    assert_eq!(oai.externalids.arxiv.as_deref(), Some("5"));
    assert_eq!(oai.license.as_deref(), Some("CC0"));
    assert_eq!(oai.url.as_deref(), Some("https://example.org/p.pdf"));
    assert_eq!(oai.status.as_deref(), Some("GOLD"));
}

#[test]
fn open_access_from_client_without_ids() {
    let oai = OpenAccessInfo::from_surface(client_paper("1", "", None).openaccessinfo.unwrap());
    assert!(oai.externalids.mag.is_none());
    assert!(oai.externalids.arxiv.is_none());
    assert_eq!(oai.license.as_deref(), Some("CC0"));
}

#[test]
fn paper_from_client() {
    let p = Paper::try_from_surface(client_paper("+0042", "2012-12-12 12:12:12Z", Some(client_ids()))).unwrap();
    assert_eq!(p.corpusid, 42);
    assert_eq!(p.title, "A title");
    assert_eq!(p.abstract_text, "An abstract");
    assert_eq!(p.updated.seconds(), 1355314332);
    let q = Paper::from_surface(client_paper("42", "2012-12-12T12:12:12Z", None));
    assert_eq!(q.corpusid, 42);
}

#[test]
fn paper_from_client_refuses_incomplete_papers() {
    assert!(Paper::try_from_surface(client_paper("x42", "2012-12-12T12:12:12Z", None)).is_none());
    assert!(Paper::try_from_surface(client_paper("42", "soon", None)).is_none());
    let mut no_access = client_paper("42", "2012-12-12T12:12:12Z", None);
    no_access.openaccessinfo = None;
    assert!(Paper::try_from_surface(no_access).is_none());
}

#[test]
fn client_form_of_stored_paper() {
    let stored = Paper::from_surface(client_paper("42", "2012-12-12T12:12:12Z", None));
    let out = surface::Paper::from_model(&stored);
    assert_eq!(out.corpusid, "42");
    assert_eq!(out.updated, "2012-12-12T12:12:12+00:00");
    assert_eq!(out.fulltext, "");
    let oai = out.openaccessinfo.unwrap();
    let ids = oai.externalids.unwrap();
    assert_eq!(ids.mag, "");
    assert_eq!(ids.pmid, "");
    assert_eq!(oai.license, "CC0");
    assert_eq!(out.title, "A title");
}

#[test]
fn client_form_of_search_hit() {
    let out = surface::Paper::from_search_result_at(&hit(), "then".to_string());
    assert_eq!(out.corpusid, "work_abc");
    assert_eq!(out.title, "Attention is all you need");
    assert_eq!(out.abstract_text, "The dominant models");
    assert_eq!(out.updated, "then");
    assert_eq!(out.fulltext, "");
    let oai = out.openaccessinfo.unwrap();
    assert_eq!(oai.license, "cc-by");
    assert_eq!(oai.url, "https://arxiv.org/pdf/1706.03762");
    assert_eq!(oai.status, "");
    let ids = oai.externalids.unwrap();
    assert_eq!(ids.doi, "10.5555/3295222");
    assert_eq!(ids.arxiv, "1706.03762");
    assert_eq!(ids.mag, "");
}

#[test]
fn client_form_of_bare_search_hit() {
    let mut h = hit();
    h.abstracts.clear();
    h.biblio = empty_biblio("T");
    h.fulltext = empty_fulltext();
    h.releases = vec![release_with_arxiv(None)];
    let out = surface::Paper::from_search_result(&h);
    assert_eq!(out.abstract_text, "");
    assert!(out.updated.ends_with("UTC"));
    let oai = out.openaccessinfo.unwrap();
    assert_eq!(oai.license, "");
    assert_eq!(oai.url, "");
    assert_eq!(oai.externalids.unwrap().arxiv, "");
}

#[test]
fn stored_paper_keeps_its_time() {
    let t = Timestamp::parse_rfc3339("2020-02-29T23:59:59Z").unwrap();
    let mut stored = Paper::from_surface(client_paper("1", "2012-12-12T12:12:12Z", None));
    stored.updated = t;
    assert_eq!(surface::Paper::from_model(&stored).updated, "2020-02-29T23:59:59+00:00");
}

#[test]
fn client_form_with_given_time() {
    let stored = Paper::from_surface(client_paper("7", "2012-12-12T12:12:12Z", Some(client_ids())));
    let out = surface::Paper::from_model_at(&stored, "given".to_string());
    assert_eq!(out.updated, "given");
    assert_eq!(out.corpusid, "7");
    assert_eq!(out.openaccessinfo.unwrap().externalids.unwrap().pmid, "4");
}
