//! The service's own record of a paper, and its conversions from and to the
//! messages that clients exchange with the service.

use vstd::prelude::*;
use vstd::string::*;
use crate::surface;
use crate::text::{format_u64, parse_u64, parse_u64_spec, decimal_text};
use crate::time::{Timestamp, utc_text_instant, rfc3339_text};

verus! {

/// Identifiers of a paper in other catalogues; each may be missing.
#[derive(Clone, Debug)]
pub struct Externalids {
    pub mag: Option<String>,
    pub acl: Option<String>,
    pub doi: Option<String>,
    pub pubmedcentral: Option<String>,
    pub arxiv: Option<String>,
}

pub struct ExternalidsView {
    pub mag: Option<Seq<char>>,
    pub acl: Option<Seq<char>>,
    pub doi: Option<Seq<char>>,
    pub pubmedcentral: Option<Seq<char>>,
    pub arxiv: Option<Seq<char>>,
}

impl View for Externalids {
    type V = ExternalidsView;

    open spec fn view(&self) -> ExternalidsView {
        ExternalidsView {
            mag: self.mag.deep_view(),
            acl: self.acl.deep_view(),
            doi: self.doi.deep_view(),
            pubmedcentral: self.pubmedcentral.deep_view(),
            arxiv: self.arxiv.deep_view(),
        }
    }
}

/// Where and under which licence a paper can be read.
#[derive(Clone, Debug)]
pub struct OpenAccessInfo {
    pub externalids: Externalids,
    pub license: Option<String>,
    pub url: Option<String>,
    pub status: Option<String>,
}

pub struct OpenAccessInfoView {
    pub externalids: ExternalidsView,
    pub license: Option<Seq<char>>,
    pub url: Option<Seq<char>>,
    pub status: Option<Seq<char>>,
}

impl View for OpenAccessInfo {
    type V = OpenAccessInfoView;

    open spec fn view(&self) -> OpenAccessInfoView {
        OpenAccessInfoView {
            externalids: self.externalids@,
            license: self.license.deep_view(),
            url: self.url.deep_view(),
            status: self.status.deep_view(),
        }
    }
}

/// A paper as the service stores it: a numeric corpus id and the instant of
/// its last update.
#[derive(Clone, Debug)]
pub struct Paper {
    pub corpusid: u64,
    pub openaccessinfo: OpenAccessInfo,
    pub title: String,
    pub abstract_text: String,
    pub updated: Timestamp,
}

pub struct PaperView {
    pub corpusid: u64,
    pub openaccessinfo: OpenAccessInfoView,
    pub title: Seq<char>,
    pub abstract_text: Seq<char>,
    pub updated: (i64, u32),
}

impl View for Paper {
    type V = PaperView;

    open spec fn view(&self) -> PaperView {
        PaperView {
            corpusid: self.corpusid,
            openaccessinfo: self.openaccessinfo@,
            title: self.title@,
            abstract_text: self.abstract_text@,
            updated: self.updated@,
        }
    }
}

/// A paper's embedding, keyed by its corpus id.
#[derive(Clone, Debug)]
pub struct PaperVec<T> {
    pub corpusid: u64,
    pub vector: T,
}

/// The service's reading of a client's access information: each external id
/// is taken from the client's ids where it sent any, and the licence, url and
/// status are always present.
pub open spec fn open_access_from_surface(o: surface::OpenAccessInfoView) -> OpenAccessInfoView {
    OpenAccessInfoView {
        externalids: ExternalidsView {
            mag: match o.externalids {
                Some(e) => Some(e.mag),
                None => None,
            },
            acl: match o.externalids {
                Some(e) => Some(e.acl),
                None => None,
            },
            doi: match o.externalids {
                Some(e) => Some(e.doi),
                None => None,
            },
            pubmedcentral: match o.externalids {
                Some(e) => Some(e.pmid),
                None => None,
            },
            arxiv: match o.externalids {
                Some(e) => Some(e.arxiv),
                None => None,
            },
        },
        license: Some(o.license),
        url: Some(o.url),
        status: Some(o.status),
    }
}

/// The service's reading of a client's paper: `None` where the corpus id is not
/// a `u64`, the access information is missing, or the update time does not
/// parse as a UTC date and time.
pub open spec fn paper_from_surface(p: surface::PaperView) -> Option<PaperView> {
    match (parse_u64_spec(p.corpusid), p.openaccessinfo, utc_text_instant(p.updated)) {
        (Some(id), Some(oai), Some(updated)) => Some(
            PaperView {
                corpusid: id,
                openaccessinfo: open_access_from_surface(oai),
                title: p.title,
                abstract_text: p.abstract_text,
                updated: updated,
            },
        ),
        _ => None,
    }
}

/// The text of an optional field, empty where it is missing.
pub open spec fn text_or_empty(o: Option<Seq<char>>) -> Seq<char> {
    match o {
        Some(s) => s,
        None => Seq::empty(),
    }
}

/// The client's form of a stored paper, given the text of its update time.
pub open spec fn surface_from_model(p: PaperView, updated: Seq<char>) -> surface::PaperView {
    surface::PaperView {
        corpusid: decimal_text(p.corpusid as nat),
        openaccessinfo: Some(
            surface::OpenAccessInfoView {
                externalids: Some(
                    surface::ExternalidsView {
                        mag: text_or_empty(p.openaccessinfo.externalids.mag),
                        acl: text_or_empty(p.openaccessinfo.externalids.acl),
                        doi: text_or_empty(p.openaccessinfo.externalids.doi),
                        pmid: text_or_empty(p.openaccessinfo.externalids.pubmedcentral),
                        arxiv: text_or_empty(p.openaccessinfo.externalids.arxiv),
                    },
                ),
                license: text_or_empty(p.openaccessinfo.license),
                url: text_or_empty(p.openaccessinfo.url),
                status: text_or_empty(p.openaccessinfo.status),
            },
        ),
        title: p.title,
        abstract_text: p.abstract_text,
        updated: updated,
        fulltext: Seq::empty(),
    }
}

/// How the service reads a client's access information: the licence, url and
/// status each as sent, and each external id from the same-named id of the
/// client (`pubmedcentral` from `pmid`) where the client sent ids, else none.
pub proof fn lemma_open_access_reading(o: surface::OpenAccessInfoView)
    ensures
        ({
            let r = open_access_from_surface(o);
            let e = o.externalids->Some_0;
            &&& r.license == Some(o.license)
            &&& r.url == Some(o.url)
            &&& r.status == Some(o.status)
            &&& o.externalids is None ==> {
                &&& r.externalids.mag is None
                &&& r.externalids.acl is None
                &&& r.externalids.doi is None
                &&& r.externalids.pubmedcentral is None
                &&& r.externalids.arxiv is None
            }
            &&& o.externalids is Some ==> {
                &&& r.externalids.mag == Some(e.mag)
                &&& r.externalids.acl == Some(e.acl)
                &&& r.externalids.doi == Some(e.doi)
                &&& r.externalids.pubmedcentral == Some(e.pmid)
                &&& r.externalids.arxiv == Some(e.arxiv)
            }
        }),
{
}

/// How the service reads a client's paper: it succeeds exactly when the corpus
/// id is a `u64`, access information is present and the time parses as UTC;
/// the record then has that id, the client's title and abstract, that instant,
/// and the client's access information with each field in its own place.
pub proof fn lemma_client_paper_reading(p: surface::PaperView)
    ensures
        paper_from_surface(p) is Some <==> (parse_u64_spec(p.corpusid) is Some && p.openaccessinfo is Some
            && utc_text_instant(p.updated) is Some),
        paper_from_surface(p) is Some ==> ({
            let r = paper_from_surface(p)->Some_0;
            let o = p.openaccessinfo->Some_0;
            let e = o.externalids->Some_0;
            &&& Some(r.corpusid) == parse_u64_spec(p.corpusid)
            &&& r.title == p.title
            &&& r.abstract_text == p.abstract_text
            &&& Some(r.updated) == utc_text_instant(p.updated)
            &&& r.openaccessinfo.license == Some(o.license)
            &&& r.openaccessinfo.url == Some(o.url)
            &&& r.openaccessinfo.status == Some(o.status)
            &&& o.externalids is None ==> r.openaccessinfo.externalids.doi is None
                && r.openaccessinfo.externalids.mag is None && r.openaccessinfo.externalids.acl is None
                && r.openaccessinfo.externalids.pubmedcentral is None
                && r.openaccessinfo.externalids.arxiv is None
            &&& o.externalids is Some ==> r.openaccessinfo.externalids.mag == Some(e.mag)
                && r.openaccessinfo.externalids.acl == Some(e.acl) && r.openaccessinfo.externalids.doi
                == Some(e.doi) && r.openaccessinfo.externalids.pubmedcentral == Some(e.pmid)
                && r.openaccessinfo.externalids.arxiv == Some(e.arxiv)
        }),
{
}

/// The client form of a stored paper puts each field in its own place: the
/// corpus id in decimal, title, abstract and time text as given, no full text,
/// and access information whose every field is the record's own (empty where
/// the record has none), `pmid` taken from `pubmedcentral`.
pub proof fn lemma_client_form_of_record(p: PaperView, updated: Seq<char>)
    ensures
        ({
            let c = surface_from_model(p, updated);
            let o = c.openaccessinfo->Some_0;
            let e = o.externalids->Some_0;
            let r = p.openaccessinfo;
            &&& c.corpusid == decimal_text(p.corpusid as nat)
            &&& c.title == p.title
            &&& c.abstract_text == p.abstract_text
            &&& c.updated == updated
            &&& c.fulltext.len() == 0
            &&& c.openaccessinfo is Some
            &&& o.license == (if r.license is Some { r.license->Some_0 } else { Seq::empty() })
            &&& o.url == (if r.url is Some { r.url->Some_0 } else { Seq::empty() })
            &&& o.status == (if r.status is Some { r.status->Some_0 } else { Seq::empty() })
            &&& o.externalids is Some
            &&& e.mag == (if r.externalids.mag is Some { r.externalids.mag->Some_0 } else { Seq::empty() })
            &&& e.acl == (if r.externalids.acl is Some { r.externalids.acl->Some_0 } else { Seq::empty() })
            &&& e.doi == (if r.externalids.doi is Some { r.externalids.doi->Some_0 } else { Seq::empty() })
            &&& e.pmid == (if r.externalids.pubmedcentral is Some {
                r.externalids.pubmedcentral->Some_0
            } else {
                Seq::empty()
            })
            &&& e.arxiv == (if r.externalids.arxiv is Some {
                r.externalids.arxiv->Some_0
            } else {
                Seq::empty()
            })
        }),
{
}

fn cloned_text(s: &String) -> (res: Option<String>)
    ensures
        res.deep_view() == Some(s@),
{
    Some(s.clone())
}

fn text_or_default(o: &Option<String>) -> (res: String)
    ensures
        res@ == text_or_empty(o.deep_view()),
{
    match o {
        Some(s) => s.clone(),
        None => String::new(),
    }
}

impl OpenAccessInfo {
    /// Reads a client's access information.
    pub fn from_surface(oai: surface::OpenAccessInfo) -> (res: OpenAccessInfo)
        ensures
            res@ == open_access_from_surface(oai@),
    {
        let externalids = match &oai.externalids {
            Some(e) => Externalids {
                mag: cloned_text(&e.mag),
                acl: cloned_text(&e.acl),
                doi: cloned_text(&e.doi),
                pubmedcentral: cloned_text(&e.pmid),
                arxiv: cloned_text(&e.arxiv),
            },
            None => Externalids { mag: None, acl: None, doi: None, pubmedcentral: None, arxiv: None },
        };
        OpenAccessInfo {
            externalids,
            license: Some(oai.license),
            url: Some(oai.url),
            status: Some(oai.status),
        }
    }
}

impl Paper {
    /// Reads a client's paper. The caller guarantees what reading requires: a
    /// numeric corpus id, access information, and an update time that parses.
    pub fn from_surface(paper: surface::Paper) -> (res: Paper)
        requires
            paper_from_surface(paper@) is Some,
        ensures
            res@ == paper_from_surface(paper@)->Some_0,
    {
        let corpusid = match parse_u64(paper.corpusid.as_str()) {
            Some(id) => id,
            None => {
                proof {
                    assert(false);
                }
                0
            },
        };
        let updated = match Timestamp::parse_utc(paper.updated.as_str()) {
            Some(t) => t,
            None => {
                proof {
                    assert(false);
                }
                Timestamp::unix_epoch()
            },
        };
        let oai = match paper.openaccessinfo {
            Some(o) => o,
            None => {
                proof {
                    assert(false);
                }
                surface::OpenAccessInfo {
                    externalids: None,
                    license: String::new(),
                    url: String::new(),
                    status: String::new(),
                }
            },
        };
        Paper {
            corpusid,
            openaccessinfo: OpenAccessInfo::from_surface(oai),
            title: paper.title,
            abstract_text: paper.abstract_text,
            updated,
        }
    }

    /// Reads a client's paper, or `None` where `from_surface` may not be called.
    pub fn try_from_surface(paper: surface::Paper) -> (res: Option<Paper>)
        ensures
            match res {
                Some(p) => paper_from_surface(paper@) == Some(p@),
                None => paper_from_surface(paper@) is None,
            },
    {
        let id = parse_u64(paper.corpusid.as_str());
        let updated = Timestamp::parse_utc(paper.updated.as_str());
        if id.is_some() && paper.openaccessinfo.is_some() && updated.is_some() {
            Some(Paper::from_surface(paper))
        } else {
            None
        }
    }
}

impl surface::Paper {
    /// The client form of a stored paper, given the text of its update time:
    /// the corpus id in decimal, missing ids and access fields as empty text,
    /// and no full text.
    pub fn from_model_at(paper: &Paper, updated: String) -> (res: surface::Paper)
        ensures
            res@ == surface_from_model(paper@, updated@),
    {
        let oai = &paper.openaccessinfo;
        surface::Paper {
            corpusid: format_u64(paper.corpusid),
            openaccessinfo: Some(
                surface::OpenAccessInfo {
                    externalids: Some(
                        surface::Externalids {
                            mag: text_or_default(&oai.externalids.mag),
                            acl: text_or_default(&oai.externalids.acl),
                            doi: text_or_default(&oai.externalids.doi),
                            pmid: text_or_default(&oai.externalids.pubmedcentral),
                            arxiv: text_or_default(&oai.externalids.arxiv),
                        },
                    ),
                    license: text_or_default(&oai.license),
                    url: text_or_default(&oai.url),
                    status: text_or_default(&oai.status),
                },
            ),
            title: paper.title.clone(),
            abstract_text: paper.abstract_text.clone(),
            updated,
            fulltext: String::new(),
        }
    }

    /// The client form of a stored paper, with its update time in RFC 3339.
    pub fn from_model(paper: &Paper) -> (res: surface::Paper)
        ensures
            rfc3339_text(paper.updated@.0, paper.updated@.1) == Some(res@.updated),
            res@ == surface_from_model(paper@, res@.updated),
    {
        surface::Paper::from_model_at(paper, paper.updated.to_rfc3339())
    }
}

} // verus!
