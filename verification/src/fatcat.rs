//! Search results of the scholar archive (fatcat) as its JSON API returns
//! them, and the client form of a paper made from one of them.

use vstd::prelude::*;
use crate::surface;
use crate::time::{current_time_text, utc_display_text};

verus! {

#[derive(Clone, Debug)]
pub struct Access {
    pub access_type: Option<String>,
    pub access_url: Option<String>,
    pub file_ident: Option<String>,
    pub mimetype: Option<String>,
    pub release_ident: Option<String>,
}

#[derive(Clone, Debug)]
pub struct Abstract {
    pub body: String,
    pub lang_code: Option<String>,
}

#[derive(Clone, Debug)]
pub struct Biblio {
    pub affiliations: Option<Vec<String>>,
    pub contrib_count: Option<i32>,
    pub contrib_names: Option<Vec<String>>,
    pub doi: Option<String>,
    pub doi_prefix: Option<String>,
    pub doi_registrar: Option<String>,
    pub issns: Option<Vec<String>>,
    pub lang_code: Option<String>,
    pub license_slug: Option<String>,
    pub publisher: Option<String>,
    pub release_date: Option<String>,
    pub release_ident: Option<String>,
    pub release_stage: Option<String>,
    pub release_type: Option<String>,
    pub release_year: Option<i32>,
    pub title: String,
}

#[derive(Clone, Debug)]
pub struct Fulltext {
    pub file_mimetype: Option<String>,
    pub access_type: Option<String>,
    pub file_sha1: Option<String>,
    pub size_bytes: Option<i32>,
    pub lang_code: Option<String>,
    pub file_ident: Option<String>,
    pub access_url: Option<String>,
    pub release_ident: Option<String>,
    pub thumbnail_url: Option<String>,
}

#[derive(Clone, Debug)]
pub struct Release {
    pub arxiv_id: Option<String>,
    pub container_ident: Option<String>,
    pub container_issnl: Option<String>,
    pub container_name: Option<String>,
    pub doi: Option<String>,
    pub doi_prefix: Option<String>,
    pub doi_registrar: Option<String>,
    pub ident: Option<String>,
    pub release_date: Option<String>,
    pub release_stage: Option<String>,
    pub release_type: Option<String>,
    pub release_year: Option<i32>,
    pub revision: Option<String>,
    pub title: Option<String>,
}

/// One hit of a scholar archive search.
#[derive(Clone, Debug)]
pub struct SearchResult {
    pub collapse_key: String,
    pub work_ident: String,
    pub access: Vec<Access>,
    pub abstracts: Vec<Abstract>,
    pub biblio: Biblio,
    pub fulltext: Fulltext,
    pub doc_type: String,
    pub doc_index_ts: String,
    pub key: String,
    pub releases: Vec<Release>,
    pub tags: Vec<String>,
    pub _highlights: Vec<String>,
    pub _collapsed: Vec<String>,
    pub _collapsed_count: i32,
}

/// A page of scholar archive search results.
#[derive(Clone, Debug)]
pub struct SearchResponse {
    pub query_type: String,
    pub count_returned: i32,
    pub count_found: i32,
    pub offset: i32,
    pub limit: i32,
    pub deep_page_limit: i32,
    pub query_time_ms: i32,
    pub query_wall_time_ms: i32,
    pub results: Vec<SearchResult>,
}

/// The text of an optional field, empty where it is missing.
pub open spec fn or_empty(o: Option<String>) -> Seq<char> {
    match o {
        Some(s) => s@,
        None => Seq::empty(),
    }
}

/// The body of a hit's first abstract, empty where it has none.
pub open spec fn first_abstract_body(sr: SearchResult) -> Seq<char> {
    if sr.abstracts@.len() > 0 {
        sr.abstracts@[0].body@
    } else {
        Seq::empty()
    }
}

/// The client form of a paper made from a search hit, given the text of the
/// update time: the collapse key as corpus id, the DOI, the first release's
/// arXiv id, the licence slug and the access url where the hit has them, the
/// title, the first abstract, and every other field empty.
pub open spec fn surface_from_search_result(sr: SearchResult, updated: Seq<char>) -> surface::PaperView {
    surface::PaperView {
        corpusid: sr.collapse_key@,
        openaccessinfo: Some(
            surface::OpenAccessInfoView {
                externalids: Some(
                    surface::ExternalidsView {
                        mag: Seq::empty(),
                        acl: Seq::empty(),
                        doi: or_empty(sr.biblio.doi),
                        pmid: Seq::empty(),
                        arxiv: or_empty(sr.releases@[0].arxiv_id),
                    },
                ),
                license: or_empty(sr.biblio.license_slug),
                url: or_empty(sr.fulltext.access_url),
                status: Seq::empty(),
            },
        ),
        title: sr.biblio.title@,
        abstract_text: first_abstract_body(sr),
        updated: updated,
        fulltext: Seq::empty(),
    }
}

/// The client form of a search hit takes each field from its place in the hit:
/// the collapse key as id, the title, the body of the first abstract (empty
/// where there is none), the given time, the DOI, licence slug and access url
/// where present, the arXiv id of the first release, and nothing else.
pub proof fn lemma_client_form_of_hit(sr: SearchResult, updated: Seq<char>)
    requires
        sr.releases@.len() > 0,
    ensures
        ({
            let c = surface_from_search_result(sr, updated);
            let o = c.openaccessinfo->Some_0;
            let e = o.externalids->Some_0;
            &&& c.corpusid == sr.collapse_key@
            &&& c.title == sr.biblio.title@
            &&& sr.abstracts@.len() > 0 ==> c.abstract_text == sr.abstracts@[0].body@
            &&& sr.abstracts@.len() == 0 ==> c.abstract_text.len() == 0
            &&& c.updated == updated
            &&& c.fulltext.len() == 0
            &&& c.openaccessinfo is Some
            &&& o.license == (if sr.biblio.license_slug is Some {
                sr.biblio.license_slug->Some_0@
            } else {
                Seq::empty()
            })
            &&& o.url == (if sr.fulltext.access_url is Some {
                sr.fulltext.access_url->Some_0@
            } else {
                Seq::empty()
            })
            &&& o.status.len() == 0
            &&& o.externalids is Some
            &&& e.doi == (if sr.biblio.doi is Some { sr.biblio.doi->Some_0@ } else { Seq::empty() })
            &&& e.arxiv == (if sr.releases@[0].arxiv_id is Some {
                sr.releases@[0].arxiv_id->Some_0@
            } else {
                Seq::empty()
            })
            &&& e.mag.len() == 0
            &&& e.acl.len() == 0
            &&& e.pmid.len() == 0
        }),
{
}

fn text_or_empty(o: &Option<String>) -> (res: String)
    ensures
        res@ == or_empty(*o),
{
    match o {
        Some(s) => s.clone(),
        None => String::new(),
    }
}

impl surface::Paper {
    /// The client form of a paper made from a search hit, stamped with the
    /// given update time. The hit must have a release, as the first one's arXiv
    /// id is read.
    pub fn from_search_result_at(sr: &SearchResult, updated: String) -> (res: surface::Paper)
        requires
            sr.releases@.len() > 0,
        ensures
            res@ == surface_from_search_result(*sr, updated@),
    {
        let abstract_text = if sr.abstracts.len() > 0 {
            sr.abstracts[0].body.clone()
        } else {
            String::new()
        };
        surface::Paper {
            corpusid: sr.collapse_key.clone(),
            openaccessinfo: Some(
                surface::OpenAccessInfo {
                    externalids: Some(
                        surface::Externalids {
                            mag: String::new(),
                            acl: String::new(),
                            doi: text_or_empty(&sr.biblio.doi),
                            pmid: String::new(),
                            arxiv: text_or_empty(&sr.releases[0].arxiv_id),
                        },
                    ),
                    license: text_or_empty(&sr.biblio.license_slug),
                    url: text_or_empty(&sr.fulltext.access_url),
                    status: String::new(),
                },
            ),
            title: sr.biblio.title.clone(),
            abstract_text,
            updated,
            fulltext: String::new(),
        }
    }

    /// The client form of a paper made from a search hit, stamped with the
    /// current time as `DateTime<Utc>`'s `Display` writes it. Everything but
    /// the update time is as `from_search_result_at` states.
    pub fn from_search_result(sr: &SearchResult) -> (res: surface::Paper)
        requires
            sr.releases@.len() > 0,
        ensures
            res@ == surface_from_search_result(*sr, res@.updated),
            exists|secs: i64, nanos: u32| res@.updated == utc_display_text(secs, nanos),
    {
        let now = current_time_text();
        surface::Paper::from_search_result_at(sr, now)
    }
}

} // verus!
