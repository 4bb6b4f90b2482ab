//! The decisions of the paper search service's handlers: what a search, a
//! lookup and an insertion answer, given what the vector store returned, and
//! how the store's collection is set up.

use vstd::prelude::*;
use vstd::string::*;
use crate::embedding::{extract_query_string_from_paper, query_text};
use crate::model::{open_access_from_surface, surface_from_model, OpenAccessInfo, Paper, PaperView};
use crate::payload::{
    decode_paper, encodes_paper, lemma_decode_encoded_paper,
    lemma_encodings_decode_alike, PayloadMap,
};
use crate::surface;
use crate::text::{
    decimal_text, format_u64, is_canonical_decimal, lemma_canonical_id_echo,
    lemma_parse_format_roundtrip, parse_u64, parse_u64_spec,
};
use crate::time::{in_rfc3339_years, rfc3339_instant, rfc3339_text, Timestamp};
use crate::embedding::separator;

verus! {

/// The collection of the vector store that holds the papers.
pub fn paper_collection() -> (res: &'static str)
    ensures
        res@ == "papers"@,
{
    "papers"
}

/// How a search asks the model and the store: the query text embedded under
/// the key `search-query`, then at most `limit` points of the papers'
/// collection, with their payloads. (The least score, a float, is set by the
/// server.)
pub struct SearchPlan {
    pub query: String,
    pub key: String,
    pub collection_name: String,
    pub limit: u64,
    pub with_payload: bool,
}

/// The plan of a search request.
pub fn search_plan(request: surface::SearchPaperRequest) -> (res: SearchPlan)
    ensures
        res.query@ == request.query@,
        res.key@ == "search-query"@,
        res.collection_name@ == "papers"@,
        res.limit == request.limit,
        res.with_payload,
{
    SearchPlan {
        query: request.query,
        key: String::from_str("search-query"),
        collection_name: String::from_str(paper_collection()),
        limit: request.limit,
        with_payload: true,
    }
}

/// How a lookup asks the store: the point whose id is the numeric corpus id,
/// in the papers' collection, with its payload and vectors.
pub struct LookupPlan {
    pub collection_name: String,
    pub point_id: u64,
    pub with_payload: bool,
    pub with_vectors: bool,
}

/// The plan of a lookup whose corpus id is a `u64`.
pub fn lookup_plan(request: &surface::GetPaperRequest) -> (res: LookupPlan)
    requires
        parse_u64_spec(request.corpusid@) is Some,
    ensures
        parse_u64_spec(request.corpusid@) == Some(res.point_id),
        res.collection_name@ == "papers"@,
        res.with_payload,
        res.with_vectors,
{
    let point_id = match parse_u64(request.corpusid.as_str()) {
        Some(id) => id,
        None => {
            proof {
                assert(false);
            }
            0
        },
    };
    LookupPlan {
        collection_name: String::from_str(paper_collection()),
        point_id,
        with_payload: true,
        with_vectors: true,
    }
}

/// Why a request fails.
#[derive(Clone, Debug)]
pub enum ServiceError {
    /// Nothing is stored under the requested id.
    NotFound(String),
    /// A service that the handler depends on failed.
    Internal(String),
}

/// A client paper is the answer for a payload: the client form of the paper
/// that the payload holds, with its update time in RFC 3339.
pub open spec fn answers_for(p: surface::Paper, payload: PayloadMap) -> bool {
    decode_paper(payload) matches Some(stored) && rfc3339_text(stored.updated.0, stored.updated.1)
        == Some(p@.updated) && p@ == surface_from_model(stored, p@.updated)
}

/// Every payload holds a paper.
pub open spec fn all_hold_papers(payloads: Seq<PayloadMap>) -> bool {
    forall|i: int| 0 <= i < payloads.len() ==> decode_paper(#[trigger] payloads[i]) is Some
}

fn holds_papers(payloads: &Vec<PayloadMap>) -> (res: bool)
    ensures
        res == all_hold_papers(payloads@),
{
    let mut i: usize = 0;
    while i < payloads.len()
        invariant
            i <= payloads@.len(),
            forall|j: int| 0 <= j < i ==> decode_paper(#[trigger] payloads@[j]) is Some,
        decreases payloads@.len() - i,
    {
        if !Paper::is_paper_payload(&payloads[i]) {
            return false;
        }
        i += 1;
    }
    true
}

/// The answer to a search, given the payloads of the points that the store
/// found, each of which holds a paper: each payload's paper in client form, in
/// the store's order.
pub fn search_paper_response(payloads: &Vec<PayloadMap>) -> (res: surface::SearchPaperResponse)
    requires
        all_hold_papers(payloads@),
    ensures
        res.papers@.len() == payloads@.len(),
        forall|i: int| 0 <= i < payloads@.len() ==> answers_for(#[trigger] res.papers@[i], payloads@[i]),
{
    let mut out: Vec<surface::Paper> = Vec::new();
    let mut i: usize = 0;
    while i < payloads.len()
        invariant
            i <= payloads@.len(),
            all_hold_papers(payloads@),
            out@.len() == i,
            forall|j: int| 0 <= j < i ==> answers_for(#[trigger] out@[j], payloads@[j]),
        decreases payloads@.len() - i,
    {
        let paper = Paper::from_payload(&payloads[i]);
        out.push(surface::Paper::from_model(&paper));
        i += 1;
    }
    surface::SearchPaperResponse { papers: out }
}

/// The answer to a search, or `None` where a payload holds no paper, which the
/// service treats as a corrupt store.
pub fn try_search_paper_response(payloads: &Vec<PayloadMap>) -> (res: Option<surface::SearchPaperResponse>)
    ensures
        match res {
            Some(r) => all_hold_papers(payloads@) && r.papers@.len() == payloads@.len() && forall|i: int|
                0 <= i < payloads@.len() ==> answers_for(#[trigger] r.papers@[i], payloads@[i]),
            None => !all_hold_papers(payloads@),
        },
        res is Some <==> forall|i: int|
            0 <= i < payloads@.len() ==> decode_paper(#[trigger] payloads@[i]) is Some,
{
    if holds_papers(payloads) {
        Some(search_paper_response(payloads))
    } else {
        None
    }
}

/// The answer to a lookup, given the payloads of the points that the store
/// returned for the id, the first of which (if any) holds a paper: that
/// paper in client form, or `NotFound` where there is none. Later payloads are
/// not read.
pub fn get_paper_response(payloads: &Vec<PayloadMap>) -> (res: Result<surface::GetPaperResponse, ServiceError>)
    requires
        payloads@.len() > 0 ==> decode_paper(payloads@[0]) is Some,
    ensures
        payloads@.len() == 0 ==> (res matches Err(ServiceError::NotFound(msg)) && msg@
            == "paper not found"@),
        payloads@.len() > 0 ==> (res matches Ok(r) && r.paper matches Some(p) && answers_for(
            p,
            payloads@[0],
        )),
{
    if payloads.len() == 0 {
        return Err(ServiceError::NotFound(String::from_str("paper not found")));
    }
    let paper = Paper::from_payload(&payloads[0]);
    Ok(surface::GetPaperResponse { paper: Some(surface::Paper::from_model(&paper)) })
}

/// The answer to a lookup, or `None` where the first payload holds no paper (a
/// corrupt store).
pub fn try_get_paper_response(payloads: &Vec<PayloadMap>) -> (res: Option<Result<surface::GetPaperResponse, ServiceError>>)
    ensures
        payloads@.len() == 0 ==> (res matches Some(Err(ServiceError::NotFound(msg))) && msg@
            == "paper not found"@),
        payloads@.len() > 0 ==> match decode_paper(payloads@[0]) {
            None => res is None,
            Some(stored) => (res matches Some(Ok(r)) && r.paper matches Some(p) && answers_for(
                p,
                payloads@[0],
            )),
        },
{
    if payloads.len() > 0 && !Paper::is_paper_payload(&payloads[0]) {
        None
    } else {
        Some(get_paper_response(payloads))
    }
}

/// The paper that the service stores for a client's paper: the corpus id read
/// as a `u64`, the access information read as `OpenAccessInfo::from_surface`
/// does, the title and abstract, and the update time read as RFC 3339, or the
/// Unix epoch where it does not parse. `None` where the corpus id is not a
/// `u64` or the access information is missing.
pub open spec fn insert_record(p: surface::PaperView) -> Option<PaperView> {
    match (parse_u64_spec(p.corpusid), p.openaccessinfo) {
        (Some(id), Some(oai)) => Some(
            PaperView {
                corpusid: id,
                openaccessinfo: open_access_from_surface(oai),
                title: p.title,
                abstract_text: p.abstract_text,
                updated: match rfc3339_instant(p.updated) {
                    Some(t) => t,
                    None => (0i64, 0u32),
                },
            },
        ),
        _ => None,
    }
}

/// Everything that storing a client's paper needs, besides the embedding.
pub struct PreparedInsert {
    /// The id of the store's point: the numeric corpus id.
    pub point_id: u64,
    /// The paper as the service stores it.
    pub paper: Paper,
    /// The payload stored beside the embedding.
    pub payload: PayloadMap,
    /// The model input text for the embedding.
    pub query: String,
    /// The key that the embedding request is tagged with: the corpus id in decimal.
    pub key: String,
    /// The answer once the point is stored: the corpus id as the client sent it.
    pub response: surface::InsertPaperResponse,
}

/// What an insertion of a client's paper prepares: the stored record that
/// `insert_record` gives, its corpus id as point id, the payload that holds the
/// record with its update time in RFC 3339 (a time that chrono reads back where
/// it lies in the years 0 to 9999), the model input of title and abstract, the
/// decimal id as key, and the client's own id text as answer.
pub open spec fn prepared_for(sent: surface::PaperView, prep: PreparedInsert) -> bool {
    &&& insert_record(sent) == Some(prep.paper@)
    &&& prep.point_id == prep.paper.corpusid
    &&& rfc3339_text(prep.paper.updated@.0, prep.paper.updated@.1) matches Some(text) && encodes_paper(
        prep.payload,
        prep.paper@,
        text,
    ) && (in_rfc3339_years(prep.paper.updated@.0) ==> rfc3339_instant(text) == Some(
        prep.paper.updated@,
    ))
    &&& prep.query@ == query_text(prep.paper.title@, prep.paper.abstract_text@)
    &&& prep.key@ == decimal_text(prep.point_id as nat)
    &&& prep.response.corpusid@ == sent.corpusid
}

/// A client's paper that the service can store: a `u64` corpus id and access
/// information.
pub open spec fn insertable(p: surface::PaperView) -> bool {
    parse_u64_spec(p.corpusid) is Some && p.openaccessinfo is Some
}

/// What an insertion of a storable paper stores and answers.
pub fn prepare_insert(request: surface::InsertPaperRequest) -> (res: PreparedInsert)
    requires
        request.paper matches Some(p) && insertable(p@),
    ensures
        request.paper matches Some(p) && prepared_for(p@, res),
        in_rfc3339_years(res.paper.updated@.0) ==> decode_paper(res.payload) == Some(res.paper@),
{
    let paper = match request.paper {
        Some(p) => p,
        None => {
            proof {
                assert(false);
            }
            surface::Paper {
                corpusid: String::new(),
                openaccessinfo: None,
                title: String::new(),
                abstract_text: String::new(),
                updated: String::new(),
                fulltext: String::new(),
            }
        },
    };
    let paperid = match parse_u64(paper.corpusid.as_str()) {
        Some(id) => id,
        None => {
            proof {
                assert(false);
            }
            0
        },
    };
    let oai = match paper.openaccessinfo {
        Some(o) => o,
        None => {
            proof {
                assert(false);
            }
            surface::OpenAccessInfo {
                externalids: None,
                license: String::new(),
                url: String::new(),
                status: String::new(),
            }
        },
    };
    let updated = match Timestamp::parse_rfc3339(paper.updated.as_str()) {
        Some(t) => t,
        None => Timestamp::unix_epoch(),
    };
    let record = Paper {
        corpusid: paperid,
        openaccessinfo: OpenAccessInfo::from_surface(oai),
        title: paper.title,
        abstract_text: paper.abstract_text,
        updated,
    };
    let payload = record.to_payload();
    let query = query_string_of(&record);
    let key = format_u64(paperid);
    PreparedInsert {
        point_id: paperid,
        paper: record,
        payload,
        query,
        key,
        response: surface::InsertPaperResponse { corpusid: paper.corpusid },
    }
}

/// What an insertion stores and answers, or `None` where the request has no
/// paper, its corpus id is not a `u64`, or it has no access information: the
/// service refuses such a request.
pub fn try_prepare_insert(request: surface::InsertPaperRequest) -> (res: Option<PreparedInsert>)
    ensures
        match res {
            None => match request.paper {
                None => true,
                Some(p) => !insertable(p@),
            },
            Some(prep) => request.paper matches Some(p) && insertable(p@) && prepared_for(p@, prep),
        },
        res matches Some(prep) ==> (in_rfc3339_years(prep.paper.updated@.0) ==> decode_paper(
            prep.payload,
        ) == Some(prep.paper@)),
        res is Some <==> (request.paper is Some && parse_u64_spec(request.paper->Some_0.corpusid@) is Some
            && request.paper->Some_0.openaccessinfo is Some),
{
    let ok = match &request.paper {
        Some(p) => parse_u64(p.corpusid.as_str()).is_some() && p.openaccessinfo.is_some(),
        None => false,
    };
    if ok {
        Some(prepare_insert(request))
    } else {
        None
    }
}

fn query_string_of(paper: &Paper) -> (res: String)
    ensures
        res@ == query_text(paper.title@, paper.abstract_text@),
{
    extract_query_string_from_paper(
        Paper {
            corpusid: paper.corpusid,
            openaccessinfo: paper.openaccessinfo.clone(),
            title: paper.title.clone(),
            abstract_text: paper.abstract_text.clone(),
            updated: paper.updated,
        },
    )
}

/// Every payload holds a paper, whatever the paper is.
pub proof fn lemma_all_hold_papers_meaning(payloads: Seq<PayloadMap>)
    ensures
        all_hold_papers(payloads) <==> forall|i: int|
            0 <= i < payloads.len() ==> decode_paper(#[trigger] payloads[i]) is Some,
{
}

/// A client's answer for a payload is the client form of the paper that the
/// payload holds: its decimal id, its own title and abstract, its time as
/// chrono writes it, and its access fields each in its own place.
pub proof fn lemma_answer_fields(x: surface::Paper, payload: PayloadMap)
    requires
        answers_for(x, payload),
    ensures
        decode_paper(payload) is Some,
        ({
            let p = decode_paper(payload)->Some_0;
            let o = x@.openaccessinfo->Some_0;
            let e = o.externalids->Some_0;
            &&& x@.corpusid == decimal_text(p.corpusid as nat)
            &&& x@.title == p.title
            &&& x@.abstract_text == p.abstract_text
            &&& rfc3339_text(p.updated.0, p.updated.1) == Some(x@.updated)
            &&& x@.fulltext.len() == 0
            &&& x@.openaccessinfo is Some && o.externalids is Some
            &&& o.license == (if p.openaccessinfo.license is Some {
                p.openaccessinfo.license->Some_0
            } else {
                Seq::empty()
            })
            &&& o.url == (if p.openaccessinfo.url is Some { p.openaccessinfo.url->Some_0 } else { Seq::empty() })
            &&& o.status == (if p.openaccessinfo.status is Some {
                p.openaccessinfo.status->Some_0
            } else {
                Seq::empty()
            })
            &&& e.mag == (if p.openaccessinfo.externalids.mag is Some {
                p.openaccessinfo.externalids.mag->Some_0
            } else {
                Seq::empty()
            })
            &&& e.acl == (if p.openaccessinfo.externalids.acl is Some {
                p.openaccessinfo.externalids.acl->Some_0
            } else {
                Seq::empty()
            })
            &&& e.doi == (if p.openaccessinfo.externalids.doi is Some {
                p.openaccessinfo.externalids.doi->Some_0
            } else {
                Seq::empty()
            })
            &&& e.pmid == (if p.openaccessinfo.externalids.pubmedcentral is Some {
                p.openaccessinfo.externalids.pubmedcentral->Some_0
            } else {
                Seq::empty()
            })
            &&& e.arxiv == (if p.openaccessinfo.externalids.arxiv is Some {
                p.openaccessinfo.externalids.arxiv->Some_0
            } else {
                Seq::empty()
            })
        }),
{
}

/// The service stores exactly the papers with a `u64` corpus id and access
/// information, whatever their title, abstract or time; the stored record has
/// that id, the client's title and abstract, the RFC 3339 instant of the time
/// or the epoch where it does not parse, and the client's licence, url and
/// status in their own places.
pub proof fn lemma_insert_acceptance(p: surface::PaperView)
    ensures
        insertable(p) <==> (parse_u64_spec(p.corpusid) is Some && p.openaccessinfo is Some),
        insert_record(p) is Some <==> (parse_u64_spec(p.corpusid) is Some && p.openaccessinfo is Some),
        insert_record(p) is Some ==> ({
            let r = insert_record(p)->Some_0;
            let o = p.openaccessinfo->Some_0;
            &&& Some(r.corpusid) == parse_u64_spec(p.corpusid)
            &&& r.title == p.title
            &&& r.abstract_text == p.abstract_text
            &&& rfc3339_instant(p.updated) is Some ==> Some(r.updated) == rfc3339_instant(p.updated)
            &&& rfc3339_instant(p.updated) is None ==> r.updated == (0i64, 0u32)
            &&& r.openaccessinfo.license == Some(o.license)
            &&& r.openaccessinfo.url == Some(o.url)
            &&& r.openaccessinfo.status == Some(o.status)
            &&& o.externalids is None ==> {
                &&& r.openaccessinfo.externalids.mag is None
                &&& r.openaccessinfo.externalids.acl is None
                &&& r.openaccessinfo.externalids.doi is None
                &&& r.openaccessinfo.externalids.pubmedcentral is None
                &&& r.openaccessinfo.externalids.arxiv is None
            }
            &&& o.externalids is Some ==> {
                let e = o.externalids->Some_0;
                &&& r.openaccessinfo.externalids.mag == Some(e.mag)
                &&& r.openaccessinfo.externalids.acl == Some(e.acl)
                &&& r.openaccessinfo.externalids.doi == Some(e.doi)
                &&& r.openaccessinfo.externalids.pubmedcentral == Some(e.pmid)
                &&& r.openaccessinfo.externalids.arxiv == Some(e.arxiv)
            }
        }),
{
}

/// A prepared insertion of a client's paper has the client's numeric id as
/// point id, the decimal id as key, the title, `[SEP]` and abstract as model
/// input, and the client's own id text as answer.
pub proof fn lemma_prepared_insert_fields(sent: surface::PaperView, prep: PreparedInsert)
    requires
        prepared_for(sent, prep),
    ensures
        Some(prep.point_id) == parse_u64_spec(sent.corpusid),
        prep.paper@.title == sent.title,
        prep.paper@.abstract_text == sent.abstract_text,
        prep.query@ == sent.title + seq!['[', 'S', 'E', 'P', ']'] + sent.abstract_text,
        prep.key@ == decimal_text(prep.point_id as nat),
        prep.response.corpusid@ == sent.corpusid,
{
    assert(separator() == seq!['[', 'S', 'E', 'P', ']']);
}

/// What a client reads back of a paper it stored, where its update time lies
/// in the years 0 to 9999: the same corpus id (its very text where it was
/// written as numbers are written), the title, abstract, licence, url and
/// status as sent, the external ids as sent or empty where none were sent, the
/// update time as chrono writes the stored instant, and no full text.
pub proof fn lemma_read_back_of_insert(sent: surface::PaperView, prep: PreparedInsert, answer: surface::Paper)
    requires
        prepared_for(sent, prep),
        in_rfc3339_years(prep.paper.updated@.0),
        answers_for(answer, prep.payload),
    ensures
        decode_paper(prep.payload) == Some(prep.paper@),
        answer@.corpusid == decimal_text(prep.point_id as nat),
        parse_u64_spec(answer@.corpusid) == parse_u64_spec(sent.corpusid),
        is_canonical_decimal(sent.corpusid) ==> answer@.corpusid == sent.corpusid,
        answer@.title == sent.title,
        answer@.abstract_text == sent.abstract_text,
        sent.openaccessinfo matches Some(o) && answer@.openaccessinfo matches Some(a) && a.license
            == o.license && a.url == o.url && a.status == o.status && a.externalids == Some(
            match o.externalids {
                Some(e) => e,
                None => surface::ExternalidsView {
                    mag: Seq::empty(),
                    acl: Seq::empty(),
                    doi: Seq::empty(),
                    pmid: Seq::empty(),
                    arxiv: Seq::empty(),
                },
            },
        ),
        rfc3339_text(prep.paper.updated@.0, prep.paper.updated@.1) == Some(answer@.updated),
        answer@.fulltext == Seq::<char>::empty(),
{
    let record = prep.paper@;
    let text = rfc3339_text(record.updated.0, record.updated.1)->Some_0;
    lemma_decode_encoded_paper(prep.payload, record, text);
    lemma_parse_format_roundtrip(record.corpusid);
    if is_canonical_decimal(sent.corpusid) {
        lemma_canonical_id_echo(sent.corpusid);
    }
}

/// Inserting the same paper twice prepares the same point: the same point id,
/// stored record, key, model input and answer, and payloads that decode alike
/// and are answered alike by a lookup.
pub proof fn lemma_insert_deterministic(sent: surface::PaperView, a: PreparedInsert, b: PreparedInsert)
    requires
        prepared_for(sent, a),
        prepared_for(sent, b),
    ensures
        a.point_id == b.point_id,
        a.paper@ == b.paper@,
        a.key@ == b.key@,
        a.query@ == b.query@,
        a.response.corpusid@ == b.response.corpusid@,
        decode_paper(a.payload) == decode_paper(b.payload),
        forall|x: surface::Paper| answers_for(x, a.payload) == answers_for(x, b.payload),
{
    let text = rfc3339_text(a.paper@.updated.0, a.paper@.updated.1)->Some_0;
    lemma_encodings_decode_alike(a.payload, b.payload, a.paper@, text);
}

/// The vector size and distance (qdrant's `Distance::Cosine`, numbered 3) of
/// the collection that the service creates when it is not given a
/// configuration.
pub struct CollectionConfig {
    pub collection_name: String,
    pub vector_size: u64,
    pub distance: i32,
}

/// What to do about the papers' collection at start-up.
pub enum CollectionPlan {
    /// It exists: report success without touching it.
    AlreadyExists,
    /// Create it with the configuration that the caller gave.
    CreateGiven,
    /// Create it with the default configuration.
    CreateDefault(CollectionConfig),
}

/// Decides how to set up a collection, given whether it exists and whether a
/// configuration was given: leave an existing one alone, else create it with
/// the given configuration, else with 768-dimensional cosine vectors.
pub fn collection_plan(exists: bool, name: &str, has_config: bool) -> (res: CollectionPlan)
    ensures
        exists ==> res is AlreadyExists,
        !exists && has_config ==> res is CreateGiven,
        !exists && !has_config ==> (res matches CollectionPlan::CreateDefault(c)
            && c.collection_name@ == name@ && c.vector_size == 768 && c.distance == 3),
{
    if exists {
        CollectionPlan::AlreadyExists
    } else if has_config {
        CollectionPlan::CreateGiven
    } else {
        CollectionPlan::CreateDefault(
            CollectionConfig { collection_name: String::from_str(name), vector_size: 768, distance: 3 },
        )
    }
}

} // verus!
