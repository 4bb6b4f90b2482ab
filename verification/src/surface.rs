//! The messages of the paper search service as its clients see them: every
//! field is text, and the corpus id is a decimal string.

use vstd::prelude::*;

verus! {

/// Identifiers of a paper in other catalogues.
#[derive(Clone, Debug)]
pub struct Externalids {
    pub mag: String,
    pub acl: String,
    pub doi: String,
    pub pmid: String,
    pub arxiv: String,
}

pub struct ExternalidsView {
    pub mag: Seq<char>,
    pub acl: Seq<char>,
    pub doi: Seq<char>,
    pub pmid: Seq<char>,
    pub arxiv: Seq<char>,
}

impl View for Externalids {
    type V = ExternalidsView;

    open spec fn view(&self) -> ExternalidsView {
        ExternalidsView {
            mag: self.mag@,
            acl: self.acl@,
            doi: self.doi@,
            pmid: self.pmid@,
            arxiv: self.arxiv@,
        }
    }
}

/// Where and under which licence a paper can be read.
#[derive(Clone, Debug)]
pub struct OpenAccessInfo {
    pub externalids: Option<Externalids>,
    pub license: String,
    pub url: String,
    pub status: String,
}

pub struct OpenAccessInfoView {
    pub externalids: Option<ExternalidsView>,
    pub license: Seq<char>,
    pub url: Seq<char>,
    pub status: Seq<char>,
}

impl View for OpenAccessInfo {
    type V = OpenAccessInfoView;

    open spec fn view(&self) -> OpenAccessInfoView {
        OpenAccessInfoView {
            externalids: match self.externalids {
                Some(e) => Some(e@),
                None => None,
            },
            license: self.license@,
            url: self.url@,
            status: self.status@,
        }
    }
}

/// A paper as the service sends and receives it.
#[derive(Clone, Debug)]
pub struct Paper {
    pub corpusid: String,
    pub openaccessinfo: Option<OpenAccessInfo>,
    pub title: String,
    pub abstract_text: String,
    pub updated: String,
    pub fulltext: String,
}

pub struct PaperView {
    pub corpusid: Seq<char>,
    pub openaccessinfo: Option<OpenAccessInfoView>,
    pub title: Seq<char>,
    pub abstract_text: Seq<char>,
    pub updated: Seq<char>,
    pub fulltext: Seq<char>,
}

impl View for Paper {
    type V = PaperView;

    open spec fn view(&self) -> PaperView {
        PaperView {
            corpusid: self.corpusid@,
            openaccessinfo: match self.openaccessinfo {
                Some(o) => Some(o@),
                None => None,
            },
            title: self.title@,
            abstract_text: self.abstract_text@,
            updated: self.updated@,
            fulltext: self.fulltext@,
        }
    }
}

/// A search: the query text and how many papers to return at most.
#[derive(Clone, Debug)]
pub struct SearchPaperRequest {
    pub query: String,
    pub limit: u64,
    pub top_k: u64,
}

/// The papers found for a search, best first.
#[derive(Clone, Debug)]
pub struct SearchPaperResponse {
    pub papers: Vec<Paper>,
}

/// A request for one paper by its corpus id.
#[derive(Clone, Debug)]
pub struct GetPaperRequest {
    pub corpusid: String,
}

#[derive(Clone, Debug)]
pub struct GetPaperResponse {
    pub paper: Option<Paper>,
}

/// A request to store a paper.
#[derive(Clone, Debug)]
pub struct InsertPaperRequest {
    pub paper: Option<Paper>,
}

#[derive(Clone, Debug)]
pub struct InsertPaperResponse {
    pub corpusid: String,
}

} // verus!
