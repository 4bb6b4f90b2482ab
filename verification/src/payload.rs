//! The payload that the vector store keeps beside each paper's embedding: a map
//! from field names to loosely typed values, and the encoding of a paper in it.

use vstd::prelude::*;
use vstd::string::*;
use crate::model::{Externalids, ExternalidsView, OpenAccessInfo, OpenAccessInfoView, Paper, PaperView};
use crate::time::{Timestamp, in_rfc3339_years, rfc3339_instant, rfc3339_text};

verus! {

/// The kinds of value that the store can hold. A floating-point number is kept
/// as its IEEE 754 bit pattern.
#[derive(Debug)]
pub enum ValueKind {
    Null,
    Double(u64),
    Integer(i64),
    Text(String),
    Bool(bool),
    Struct(PayloadMap),
    List(Vec<PayloadValue>),
}

/// A stored value; a value may have no kind at all.
#[derive(Debug)]
pub struct PayloadValue {
    pub kind: Option<ValueKind>,
}

/// A map from field names to values, kept as a list of entries. Where a name
/// occurs twice, its first entry counts.
#[derive(Debug)]
pub struct PayloadMap {
    pub entries: Vec<(String, PayloadValue)>,
}

/// The value that a list of entries maps a name to: that of its first entry
/// with this name.
pub open spec fn lookup(entries: Seq<(String, PayloadValue)>, key: Seq<char>) -> Option<PayloadValue>
    decreases entries.len(),
{
    if entries.len() == 0 {
        None
    } else if entries[0].0@ == key {
        Some(entries[0].1)
    } else {
        lookup(entries.drop_first(), key)
    }
}

proof fn lemma_lookup_first(entries: Seq<(String, PayloadValue)>, key: Seq<char>, i: int)
    requires
        0 <= i <= entries.len(),
        forall|j: int| 0 <= j < i ==> (#[trigger] entries[j]).0@ != key,
    ensures
        i < entries.len() && entries[i].0@ == key ==> lookup(entries, key) == Some(entries[i].1),
        i == entries.len() ==> lookup(entries, key) is None,
    decreases i,
{
    if i > 0 {
        assert(entries[0].0@ != key);
        let rest = entries.drop_first();
        assert forall|j: int| 0 <= j < i - 1 implies (#[trigger] rest[j]).0@ != key by {
            assert(rest[j] == entries[j + 1]);
        }
        lemma_lookup_first(rest, key, i - 1);
    }
}

proof fn lemma_lookup_same_keys(e1: Seq<(String, PayloadValue)>, e2: Seq<(String, PayloadValue)>, key: Seq<char>)
    requires
        e1.len() == e2.len(),
        forall|j: int| 0 <= j < e1.len() ==> (#[trigger] e1[j]).0@ == e2[j].0@,
        forall|j: int| 0 <= j < e1.len() && (#[trigger] e1[j]).0@ == key ==> e1[j].1 == e2[j].1,
    ensures
        lookup(e1, key) == lookup(e2, key),
    decreases e1.len(),
{
    if e1.len() > 0 {
        let r1 = e1.drop_first();
        let r2 = e2.drop_first();
        assert(e1[0].0@ == e2[0].0@);
        assert forall|j: int| 0 <= j < r1.len() implies (#[trigger] r1[j]).0@ == r2[j].0@ by {
            assert(r1[j] == e1[j + 1]);
            assert(r2[j] == e2[j + 1]);
        }
        assert forall|j: int| 0 <= j < r1.len() && (#[trigger] r1[j]).0@ == key implies r1[j].1 == r2[j].1 by {
            assert(r1[j] == e1[j + 1]);
            assert(r2[j] == e2[j + 1]);
        }
        lemma_lookup_same_keys(r1, r2, key);
    }
}

proof fn lemma_lookup_push(entries: Seq<(String, PayloadValue)>, entry: (String, PayloadValue), key: Seq<char>)
    ensures
        lookup(entries.push(entry), key) == (if lookup(entries, key) is Some {
            lookup(entries, key)
        } else if entry.0@ == key {
            Some(entry.1)
        } else {
            None
        }),
    decreases entries.len(),
{
    let pushed = entries.push(entry);
    if entries.len() == 0 {
        assert(pushed.drop_first() =~= Seq::<(String, PayloadValue)>::empty());
        assert(lookup(pushed.drop_first(), key) is None);
    } else {
        assert(pushed[0] == entries[0]);
        assert(pushed.drop_first() =~= entries.drop_first().push(entry));
        lemma_lookup_push(entries.drop_first(), entry, key);
    }
}

impl PayloadMap {
    /// The value that the map gives a name.
    pub open spec fn get_spec(self, key: Seq<char>) -> Option<PayloadValue> {
        lookup(self.entries@, key)
    }

    /// The empty map.
    pub fn new() -> (res: PayloadMap)
        ensures
            res.entries@ == Seq::<(String, PayloadValue)>::empty(),
    {
        PayloadMap { entries: Vec::new() }
    }

    /// The number of entries.
    pub fn len(&self) -> (res: usize)
        ensures
            res == self.entries@.len(),
    {
        self.entries.len()
    }

    /// The value that the map gives a name, if any.
    pub fn get(&self, key: &str) -> (res: Option<&PayloadValue>)
        ensures
            match res {
                Some(v) => self.get_spec(key@) == Some(*v),
                None => self.get_spec(key@) is None,
            },
    {
        let k = String::from_str(key);
        let mut i: usize = 0;
        while i < self.entries.len()
            invariant
                i <= self.entries@.len(),
                k@ == key@,
                forall|j: int| 0 <= j < i ==> (#[trigger] self.entries@[j]).0@ != key@,
            decreases self.entries@.len() - i,
        {
            if self.entries[i].0 == k {
                proof {
                    lemma_lookup_first(self.entries@, key@, i as int);
                }
                return Some(&self.entries[i].1);
            }
            i += 1;
        }
        proof {
            lemma_lookup_first(self.entries@, key@, i as int);
        }
        None
    }

    /// Gives a name a value: the name's first entry takes the new value, or, where
    /// the name has none, an entry is added at the end. Every other name keeps
    /// its value.
    pub fn insert(&mut self, key: String, value: PayloadValue)
        ensures
            final(self).get_spec(key@) == Some(value),
            forall|k: Seq<char>| k != key@ ==> #[trigger] final(self).get_spec(k) == old(self).get_spec(k),
            final(self).entries@.len() == old(self).entries@.len() + (if old(self).get_spec(key@) is Some {
                0int
            } else {
                1int
            }),
    {
        let ghost old_entries = self.entries@;
        let ghost key_view = key@;
        let mut i: usize = 0;
        while i < self.entries.len()
            invariant
                i <= self.entries@.len(),
                self.entries@ == old_entries,
                old_entries == old(self).entries@,
                key@ == key_view,
                forall|j: int| 0 <= j < i ==> (#[trigger] self.entries@[j]).0@ != key@,
            decreases self.entries@.len() - i,
        {
            if self.entries[i].0 == key {
                proof {
                    lemma_lookup_first(old_entries, key_view, i as int);
                }
                let ghost found = i as int;
                self.entries.set(i, (key, value));
                proof {
                    let new_entries = self.entries@;
                    assert(old_entries[found].0@ == key_view);
                    lemma_lookup_first(new_entries, key_view, found);
                    assert forall|k: Seq<char>| k != key_view implies #[trigger] lookup(new_entries, k) == lookup(old_entries, k) by {
                        assert forall|j: int| 0 <= j < new_entries.len() implies (#[trigger] new_entries[j]).0@ == old_entries[j].0@ by {
                            if j != found {
                                assert(new_entries[j] == old_entries[j]);
                            }
                        }
                        lemma_lookup_same_keys(new_entries, old_entries, k);
                    }
                }
                return;
            }
            i += 1;
        }
        proof {
            lemma_lookup_first(old_entries, key_view, i as int);
        }
        let ghost entry = (key, value);
        self.entries.push((key, value));
        proof {
            assert(self.entries@ == old_entries.push(entry));
            assert forall|k: Seq<char>| #[trigger] lookup(old_entries.push(entry), k) == (if lookup(old_entries, k) is Some {
                lookup(old_entries, k)
            } else if entry.0@ == k {
                Some(entry.1)
            } else {
                None
            }) by {
                lemma_lookup_push(old_entries, entry, k);
            }
        }
    }
}

/// A text value.
pub open spec fn text_value(v: Option<PayloadValue>) -> Option<Seq<char>> {
    match v {
        Some(pv) => match pv.kind {
            Some(ValueKind::Text(s)) => Some(s@),
            _ => None,
        },
        None => None,
    }
}

/// An integer value.
pub open spec fn integer_value(v: Option<PayloadValue>) -> Option<i64> {
    match v {
        Some(pv) => match pv.kind {
            Some(ValueKind::Integer(i)) => Some(i),
            _ => None,
        },
        None => None,
    }
}

/// A nested map.
pub open spec fn struct_value(v: Option<PayloadValue>) -> Option<PayloadMap> {
    match v {
        Some(pv) => match pv.kind {
            Some(ValueKind::Struct(m)) => Some(m),
            _ => None,
        },
        None => None,
    }
}

/// An optional text: a present value that has no kind stands for a missing
/// text, and one of text kind for that text. Anything else, a missing value
/// among it, is not an optional text.
pub open spec fn optional_text_value(v: Option<PayloadValue>) -> Option<Option<Seq<char>>> {
    match v {
        Some(pv) => match pv.kind {
            None => Some(None),
            Some(ValueKind::Text(s)) => Some(Some(s@)),
            _ => None,
        },
        None => None,
    }
}

/// The external ids that a map holds under `mag`, `acl`, `doi`,
/// `pubmedcentral` and `arxiv`, each an optional text.
pub open spec fn decode_externalids(m: PayloadMap) -> Option<ExternalidsView> {
    let mag = optional_text_value(m.get_spec("mag"@));
    let acl = optional_text_value(m.get_spec("acl"@));
    let doi = optional_text_value(m.get_spec("doi"@));
    let pubmedcentral = optional_text_value(m.get_spec("pubmedcentral"@));
    let arxiv = optional_text_value(m.get_spec("arxiv"@));
    if mag is Some && acl is Some && doi is Some && pubmedcentral is Some && arxiv is Some {
        Some(
            ExternalidsView {
                mag: mag->Some_0,
                acl: acl->Some_0,
                doi: doi->Some_0,
                pubmedcentral: pubmedcentral->Some_0,
                arxiv: arxiv->Some_0,
            },
        )
    } else {
        None
    }
}

/// The access information that a map holds: the external ids in a nested map
/// under `externalids`, and `license`, `url` and `status` as optional texts.
pub open spec fn decode_open_access(m: PayloadMap) -> Option<OpenAccessInfoView> {
    let ext = struct_value(m.get_spec("externalids"@));
    let license = optional_text_value(m.get_spec("license"@));
    let url = optional_text_value(m.get_spec("url"@));
    let status = optional_text_value(m.get_spec("status"@));
    if ext is Some && decode_externalids(ext->Some_0) is Some && license is Some && url is Some
        && status is Some {
        Some(
            OpenAccessInfoView {
                externalids: decode_externalids(ext->Some_0)->Some_0,
                license: license->Some_0,
                url: url->Some_0,
                status: status->Some_0,
            },
        )
    } else {
        None
    }
}

/// The paper that a payload holds: the corpus id as an integer (read back as
/// unsigned), the title, abstract and RFC 3339 update time as texts, and the
/// access information in a nested map under `openaccessinfo`. `None` where a
/// field is missing or of another kind, or the time does not parse.
pub open spec fn decode_paper(m: PayloadMap) -> Option<PaperView> {
    let id = integer_value(m.get_spec("corpusid"@));
    let title = text_value(m.get_spec("title"@));
    let abstract_text = text_value(m.get_spec("abstract"@));
    let updated = text_value(m.get_spec("updated"@));
    let oai = struct_value(m.get_spec("openaccessinfo"@));
    if id is Some && title is Some && abstract_text is Some && updated is Some
        && rfc3339_instant(updated->Some_0) is Some && oai is Some && decode_open_access(
        oai->Some_0,
    ) is Some {
        Some(
            PaperView {
                corpusid: id->Some_0 as u64,
                openaccessinfo: decode_open_access(oai->Some_0)->Some_0,
                title: title->Some_0,
                abstract_text: abstract_text->Some_0,
                updated: rfc3339_instant(updated->Some_0)->Some_0,
            },
        )
    } else {
        None
    }
}

/// A map that holds exactly the five external ids, each as an optional text.
pub open spec fn encodes_externalids(m: PayloadMap, e: ExternalidsView) -> bool {
    &&& m.entries@.len() == 5
    &&& optional_text_value(m.get_spec("mag"@)) == Some(e.mag)
    &&& optional_text_value(m.get_spec("acl"@)) == Some(e.acl)
    &&& optional_text_value(m.get_spec("doi"@)) == Some(e.doi)
    &&& optional_text_value(m.get_spec("pubmedcentral"@)) == Some(e.pubmedcentral)
    &&& optional_text_value(m.get_spec("arxiv"@)) == Some(e.arxiv)
}

/// A map that holds exactly the access information: the external ids in a
/// nested map, and licence, url and status as optional texts.
pub open spec fn encodes_open_access(m: PayloadMap, o: OpenAccessInfoView) -> bool {
    &&& m.entries@.len() == 4
    &&& struct_value(m.get_spec("externalids"@)) matches Some(ext) && encodes_externalids(
        ext,
        o.externalids,
    )
    &&& optional_text_value(m.get_spec("license"@)) == Some(o.license)
    &&& optional_text_value(m.get_spec("url"@)) == Some(o.url)
    &&& optional_text_value(m.get_spec("status"@)) == Some(o.status)
}

/// A payload that holds exactly a paper, with the given text for its update
/// time: the corpus id as an integer (its bits read as signed), title, abstract
/// and time as texts, and the access information in a nested map.
pub open spec fn encodes_paper(m: PayloadMap, p: PaperView, updated: Seq<char>) -> bool {
    &&& m.entries@.len() == 5
    &&& integer_value(m.get_spec("corpusid"@)) == Some(p.corpusid as i64)
    &&& text_value(m.get_spec("title"@)) == Some(p.title)
    &&& text_value(m.get_spec("abstract"@)) == Some(p.abstract_text)
    &&& text_value(m.get_spec("updated"@)) == Some(updated)
    &&& struct_value(m.get_spec("openaccessinfo"@)) matches Some(oai) && encodes_open_access(
        oai,
        p.openaccessinfo,
    )
}

/// A paper's payload holds each field under its own name: the corpus id as an
/// integer under `corpusid`, the title under `title`, the abstract under
/// `abstract`, the time text under `updated`, and under `openaccessinfo` a map
/// of four entries whose `license`, `url` and `status` hold the paper's own
/// licence, url and status, and whose `externalids` is a map of five entries
/// holding the paper's `mag`, `acl`, `doi`, `pubmedcentral` and `arxiv` ids
/// each under its own name.
pub proof fn lemma_payload_of_paper(m: PayloadMap, p: PaperView, updated: Seq<char>)
    requires
        encodes_paper(m, p, updated),
    ensures
        ({
            let o = struct_value(m.get_spec("openaccessinfo"@))->Some_0;
            let e = struct_value(o.get_spec("externalids"@))->Some_0;
            &&& m.entries@.len() == 5
            &&& integer_value(m.get_spec("corpusid"@)) == Some(p.corpusid as i64)
            &&& text_value(m.get_spec("title"@)) == Some(p.title)
            &&& text_value(m.get_spec("abstract"@)) == Some(p.abstract_text)
            &&& text_value(m.get_spec("updated"@)) == Some(updated)
            &&& struct_value(m.get_spec("openaccessinfo"@)) is Some
            &&& o.entries@.len() == 4
            &&& optional_text_value(o.get_spec("license"@)) == Some(p.openaccessinfo.license)
            &&& optional_text_value(o.get_spec("url"@)) == Some(p.openaccessinfo.url)
            &&& optional_text_value(o.get_spec("status"@)) == Some(p.openaccessinfo.status)
            &&& struct_value(o.get_spec("externalids"@)) is Some
            &&& e.entries@.len() == 5
            &&& optional_text_value(e.get_spec("mag"@)) == Some(p.openaccessinfo.externalids.mag)
            &&& optional_text_value(e.get_spec("acl"@)) == Some(p.openaccessinfo.externalids.acl)
            &&& optional_text_value(e.get_spec("doi"@)) == Some(p.openaccessinfo.externalids.doi)
            &&& optional_text_value(e.get_spec("pubmedcentral"@)) == Some(
                p.openaccessinfo.externalids.pubmedcentral,
            )
            &&& optional_text_value(e.get_spec("arxiv"@)) == Some(p.openaccessinfo.externalids.arxiv)
        }),
{
}

/// Decoding reads each field of a paper from its own name, as
/// `lemma_payload_of_paper` writes them, and succeeds exactly when every one of
/// them is present and of its kind and the time text parses; no other entry,
/// and no field's content, decides.
pub proof fn lemma_paper_of_payload(m: PayloadMap)
    ensures
        ({
            let o = struct_value(m.get_spec("openaccessinfo"@))->Some_0;
            let e = struct_value(o.get_spec("externalids"@))->Some_0;
            let t = text_value(m.get_spec("updated"@))->Some_0;
            &&& decode_paper(m) is Some <==> {
                &&& integer_value(m.get_spec("corpusid"@)) is Some
                &&& text_value(m.get_spec("title"@)) is Some
                &&& text_value(m.get_spec("abstract"@)) is Some
                &&& text_value(m.get_spec("updated"@)) is Some
                &&& rfc3339_instant(t) is Some
                &&& struct_value(m.get_spec("openaccessinfo"@)) is Some
                &&& optional_text_value(o.get_spec("license"@)) is Some
                &&& optional_text_value(o.get_spec("url"@)) is Some
                &&& optional_text_value(o.get_spec("status"@)) is Some
                &&& struct_value(o.get_spec("externalids"@)) is Some
                &&& optional_text_value(e.get_spec("mag"@)) is Some
                &&& optional_text_value(e.get_spec("acl"@)) is Some
                &&& optional_text_value(e.get_spec("doi"@)) is Some
                &&& optional_text_value(e.get_spec("pubmedcentral"@)) is Some
                &&& optional_text_value(e.get_spec("arxiv"@)) is Some
            }
            &&& decode_paper(m) is Some ==> {
                let p = decode_paper(m)->Some_0;
                &&& p.corpusid == integer_value(m.get_spec("corpusid"@))->Some_0 as u64
                &&& Some(p.title) == text_value(m.get_spec("title"@))
                &&& Some(p.abstract_text) == text_value(m.get_spec("abstract"@))
                &&& Some(p.updated) == rfc3339_instant(t)
                &&& Some(p.openaccessinfo.license) == optional_text_value(o.get_spec("license"@))
                &&& Some(p.openaccessinfo.url) == optional_text_value(o.get_spec("url"@))
                &&& Some(p.openaccessinfo.status) == optional_text_value(o.get_spec("status"@))
                &&& Some(p.openaccessinfo.externalids.mag) == optional_text_value(e.get_spec("mag"@))
                &&& Some(p.openaccessinfo.externalids.acl) == optional_text_value(e.get_spec("acl"@))
                &&& Some(p.openaccessinfo.externalids.doi) == optional_text_value(e.get_spec("doi"@))
                &&& Some(p.openaccessinfo.externalids.pubmedcentral) == optional_text_value(
                    e.get_spec("pubmedcentral"@),
                )
                &&& Some(p.openaccessinfo.externalids.arxiv) == optional_text_value(e.get_spec("arxiv"@))
            }
        }),
{
}

/// Decoding a paper's payload gives the paper back, for every paper whose
/// update time chrono reads back from the text it wrote.
pub proof fn lemma_decode_encoded_paper(m: PayloadMap, p: PaperView, updated: Seq<char>)
    requires
        encodes_paper(m, p, updated),
        rfc3339_instant(updated) == Some(p.updated),
    ensures
        decode_paper(m) == Some(p),
{
    let id = p.corpusid;
    assert((id as i64) as u64 == id) by (bit_vector);
}

/// Two payloads that hold the same paper with the same time text decode alike.
pub proof fn lemma_encodings_decode_alike(m1: PayloadMap, m2: PayloadMap, p: PaperView, updated: Seq<char>)
    requires
        encodes_paper(m1, p, updated),
        encodes_paper(m2, p, updated),
    ensures
        decode_paper(m1) == decode_paper(m2),
{
    let o1 = struct_value(m1.get_spec("openaccessinfo"@))->Some_0;
    let o2 = struct_value(m2.get_spec("openaccessinfo"@))->Some_0;
    let e1 = struct_value(o1.get_spec("externalids"@))->Some_0;
    let e2 = struct_value(o2.get_spec("externalids"@))->Some_0;
    assert(decode_externalids(e1) == decode_externalids(e2));
    assert(decode_open_access(o1) == decode_open_access(o2));
}

fn text_payload(s: &String) -> (v: PayloadValue)
    ensures
        text_value(Some(v)) == Some(s@),
{
    PayloadValue { kind: Some(ValueKind::Text(s.clone())) }
}

fn optional_text_payload(o: &Option<String>) -> (v: PayloadValue)
    ensures
        optional_text_value(Some(v)) == Some(o.deep_view()),
{
    match o {
        Some(s) => PayloadValue { kind: Some(ValueKind::Text(s.clone())) },
        None => PayloadValue { kind: None },
    }
}

fn externalids_payload(e: &Externalids) -> (m: PayloadMap)
    ensures
        encodes_externalids(m, e@),
{
    proof {
        reveal_strlit("mag");
        reveal_strlit("acl");
        reveal_strlit("doi");
        reveal_strlit("pubmedcentral");
        reveal_strlit("arxiv");
        assert("mag"@[0] != "acl"@[0] && "mag"@[0] != "doi"@[0] && "mag"@[0] != "pubmedcentral"@[0]
            && "mag"@[0] != "arxiv"@[0]);
        assert("acl"@[0] != "doi"@[0] && "acl"@[0] != "pubmedcentral"@[0] && "acl"@[1] != "arxiv"@[1]);
        assert("doi"@[0] != "pubmedcentral"@[0] && "doi"@[0] != "arxiv"@[0]);
        assert("pubmedcentral"@[0] != "arxiv"@[0]);
    }
    let mut m = PayloadMap::new();
    let mag = optional_text_payload(&e.mag);
    let acl = optional_text_payload(&e.acl);
    let doi = optional_text_payload(&e.doi);
    let pubmedcentral = optional_text_payload(&e.pubmedcentral);
    let arxiv = optional_text_payload(&e.arxiv);
    m.insert(String::from_str("mag"), mag);
    assert(m.get_spec("acl"@) is None);
    m.insert(String::from_str("acl"), acl);
    assert(m.get_spec("doi"@) is None);
    m.insert(String::from_str("doi"), doi);
    assert(m.get_spec("pubmedcentral"@) is None);
    m.insert(String::from_str("pubmedcentral"), pubmedcentral);
    assert(m.get_spec("arxiv"@) is None);
    m.insert(String::from_str("arxiv"), arxiv);
    m
}

fn open_access_payload(o: &OpenAccessInfo) -> (m: PayloadMap)
    ensures
        encodes_open_access(m, o@),
{
    proof {
        reveal_strlit("externalids");
        reveal_strlit("license");
        reveal_strlit("url");
        reveal_strlit("status");
        assert("externalids"@[0] != "license"@[0] && "externalids"@[0] != "url"@[0]
            && "externalids"@[0] != "status"@[0]);
        assert("license"@[0] != "url"@[0] && "license"@[0] != "status"@[0]);
        assert("url"@[0] != "status"@[0]);
    }
    let mut m = PayloadMap::new();
    let ext = externalids_payload(&o.externalids);
    let license = optional_text_payload(&o.license);
    let url = optional_text_payload(&o.url);
    let status = optional_text_payload(&o.status);
    m.insert(String::from_str("externalids"), PayloadValue { kind: Some(ValueKind::Struct(ext)) });
    assert(m.get_spec("license"@) is None);
    m.insert(String::from_str("license"), license);
    assert(m.get_spec("url"@) is None);
    m.insert(String::from_str("url"), url);
    assert(m.get_spec("status"@) is None);
    m.insert(String::from_str("status"), status);
    m
}

fn text_field(m: &PayloadMap, key: &str) -> (res: Option<String>)
    ensures
        res.deep_view() == text_value(m.get_spec(key@)),
{
    match m.get(key) {
        Some(v) => match &v.kind {
            Some(ValueKind::Text(s)) => Some(s.clone()),
            _ => None,
        },
        None => None,
    }
}

fn integer_field(m: &PayloadMap, key: &str) -> (res: Option<i64>)
    ensures
        res == integer_value(m.get_spec(key@)),
{
    match m.get(key) {
        Some(v) => match &v.kind {
            Some(ValueKind::Integer(i)) => Some(*i),
            _ => None,
        },
        None => None,
    }
}

fn struct_field<'a>(m: &'a PayloadMap, key: &str) -> (res: Option<&'a PayloadMap>)
    ensures
        match res {
            Some(n) => struct_value(m.get_spec(key@)) == Some(*n),
            None => struct_value(m.get_spec(key@)) is None,
        },
{
    match m.get(key) {
        Some(v) => match &v.kind {
            Some(ValueKind::Struct(n)) => Some(n),
            _ => None,
        },
        None => None,
    }
}

fn optional_text_field(m: &PayloadMap, key: &str) -> (res: Option<Option<String>>)
    ensures
        match res {
            Some(o) => optional_text_value(m.get_spec(key@)) == Some(o.deep_view()),
            None => optional_text_value(m.get_spec(key@)) is None,
        },
{
    match m.get(key) {
        Some(v) => match &v.kind {
            None => Some(None),
            Some(ValueKind::Text(s)) => Some(Some(s.clone())),
            _ => None,
        },
        None => None,
    }
}

fn decode_externalids_exec(m: &PayloadMap) -> (res: Option<Externalids>)
    ensures
        match res {
            Some(e) => decode_externalids(*m) == Some(e@),
            None => decode_externalids(*m) is None,
        },
{
    let mag = optional_text_field(m, "mag");
    let acl = optional_text_field(m, "acl");
    let doi = optional_text_field(m, "doi");
    let pubmedcentral = optional_text_field(m, "pubmedcentral");
    let arxiv = optional_text_field(m, "arxiv");
    match (mag, acl, doi, pubmedcentral, arxiv) {
        (Some(mag), Some(acl), Some(doi), Some(pubmedcentral), Some(arxiv)) => Some(
            Externalids { mag, acl, doi, pubmedcentral, arxiv },
        ),
        _ => None,
    }
}

fn decode_open_access_exec(m: &PayloadMap) -> (res: Option<OpenAccessInfo>)
    ensures
        match res {
            Some(o) => decode_open_access(*m) == Some(o@),
            None => decode_open_access(*m) is None,
        },
{
    let externalids = match struct_field(m, "externalids") {
        Some(ext) => decode_externalids_exec(ext),
        None => None,
    };
    let license = optional_text_field(m, "license");
    let url = optional_text_field(m, "url");
    let status = optional_text_field(m, "status");
    match (externalids, license, url, status) {
        (Some(externalids), Some(license), Some(url), Some(status)) => Some(
            OpenAccessInfo { externalids, license, url, status },
        ),
        _ => None,
    }
}

fn decode_paper_exec(m: &PayloadMap) -> (res: Option<Paper>)
    ensures
        match res {
            Some(p) => decode_paper(*m) == Some(p@),
            None => decode_paper(*m) is None,
        },
{
    let id = integer_field(m, "corpusid");
    let title = text_field(m, "title");
    let abstract_text = text_field(m, "abstract");
    let updated = match text_field(m, "updated") {
        Some(text) => Timestamp::parse_rfc3339(text.as_str()),
        None => None,
    };
    let openaccessinfo = match struct_field(m, "openaccessinfo") {
        Some(oai) => decode_open_access_exec(oai),
        None => None,
    };
    match (id, title, abstract_text, updated, openaccessinfo) {
        (Some(id), Some(title), Some(abstract_text), Some(updated), Some(openaccessinfo)) => Some(
            Paper { corpusid: id as u64, openaccessinfo, title, abstract_text, updated },
        ),
        _ => None,
    }
}

impl Paper {
    /// The payload that stores the paper with the given text for its update
    /// time: exactly its corpus id, title, abstract, that text and its access
    /// information.
    pub fn to_payload_with(&self, updated: String) -> (m: PayloadMap)
        ensures
            encodes_paper(m, self@, updated@),
    {
        proof {
            reveal_strlit("corpusid");
            reveal_strlit("title");
            reveal_strlit("abstract");
            reveal_strlit("updated");
            reveal_strlit("openaccessinfo");
            assert("corpusid"@[0] != "title"@[0] && "corpusid"@[0] != "abstract"@[0]
                && "corpusid"@[0] != "updated"@[0] && "corpusid"@[0] != "openaccessinfo"@[0]);
            assert("title"@[0] != "abstract"@[0] && "title"@[0] != "updated"@[0] && "title"@[0]
                != "openaccessinfo"@[0]);
            assert("abstract"@[0] != "updated"@[0] && "abstract"@[0] != "openaccessinfo"@[0]);
            assert("updated"@[0] != "openaccessinfo"@[0]);
        }
        let corpusid = PayloadValue { kind: Some(ValueKind::Integer(self.corpusid as i64)) };
        let title = text_payload(&self.title);
        let abstract_text = text_payload(&self.abstract_text);
        let updated = PayloadValue { kind: Some(ValueKind::Text(updated)) };
        let oai = open_access_payload(&self.openaccessinfo);
        let mut m = PayloadMap::new();
        m.insert(String::from_str("corpusid"), corpusid);
        assert(m.get_spec("title"@) is None);
        m.insert(String::from_str("title"), title);
        assert(m.get_spec("abstract"@) is None);
        m.insert(String::from_str("abstract"), abstract_text);
        assert(m.get_spec("updated"@) is None);
        m.insert(String::from_str("updated"), updated);
        assert(m.get_spec("openaccessinfo"@) is None);
        m.insert(String::from_str("openaccessinfo"), PayloadValue { kind: Some(ValueKind::Struct(oai)) });
        m
    }

    /// The payload that stores the paper: exactly its corpus id, title,
    /// abstract, update time in RFC 3339 and access information. Where the
    /// update time lies in the years 0 to 9999, decoding the payload gives the
    /// paper back.
    pub fn to_payload(&self) -> (m: PayloadMap)
        ensures
            rfc3339_text(self.updated@.0, self.updated@.1) matches Some(text) && encodes_paper(
                m,
                self@,
                text,
            ) && (in_rfc3339_years(self.updated@.0) ==> rfc3339_instant(text) == Some(
                self.updated@,
            )),
            in_rfc3339_years(self.updated@.0) ==> decode_paper(m) == Some(self@),
    {
        let text = self.updated.to_rfc3339();
        let ghost written = text@;
        let m = self.to_payload_with(text);
        proof {
            if in_rfc3339_years(self.updated@.0) {
                lemma_decode_encoded_paper(m, self@, written);
            }
        }
        m
    }

    /// Whether a payload holds a paper that `from_payload` can read.
    pub fn is_paper_payload(m: &PayloadMap) -> (res: bool)
        ensures
            res == decode_paper(*m) is Some,
    {
        decode_paper_exec(m).is_some()
    }

    /// Reads the paper that a payload holds. The caller guarantees that it
    /// holds one: every field present and of its kind, and an update time that
    /// parses.
    pub fn from_payload(m: &PayloadMap) -> (p: Paper)
        requires
            decode_paper(*m) is Some,
        ensures
            decode_paper(*m) == Some(p@),
    {
        match decode_paper_exec(m) {
            Some(p) => p,
            None => {
                proof {
                    assert(false);
                }
                Paper {
                    corpusid: 0,
                    openaccessinfo: OpenAccessInfo {
                        externalids: Externalids {
                            mag: None,
                            acl: None,
                            doi: None,
                            pubmedcentral: None,
                            arxiv: None,
                        },
                        license: None,
                        url: None,
                        status: None,
                    },
                    title: String::new(),
                    abstract_text: String::new(),
                    updated: Timestamp::unix_epoch(),
                }
            },
        }
    }

    /// Reads the paper that a payload holds, or `None` where it holds none.
    pub fn try_from_payload(m: &PayloadMap) -> (res: Option<Paper>)
        ensures
            match res {
                Some(p) => decode_paper(*m) == Some(p@),
                None => decode_paper(*m) is None,
            },
    {
        decode_paper_exec(m)
    }
}

/// The papers that a list of payloads holds, in order; `None` where one of them
/// holds none, which the service treats as a corrupt store.
pub fn decode_papers(payloads: &Vec<PayloadMap>) -> (res: Option<Vec<Paper>>)
    ensures
        match res {
            Some(papers) => papers@.len() == payloads@.len() && forall|i: int|
                0 <= i < payloads@.len() ==> decode_paper(#[trigger] payloads@[i]) == Some(papers@[i]@),
            None => exists|i: int| 0 <= i < payloads@.len() && decode_paper(#[trigger] payloads@[i]) is None,
        },
{
    let mut papers: Vec<Paper> = Vec::new();
    let mut i: usize = 0;
    while i < payloads.len()
        invariant
            i <= payloads@.len(),
            papers@.len() == i,
            forall|j: int| 0 <= j < i ==> decode_paper(#[trigger] payloads@[j]) == Some(papers@[j]@),
        decreases payloads@.len() - i,
    {
        if Paper::is_paper_payload(&payloads[i]) {
            papers.push(Paper::from_payload(&payloads[i]));
        } else {
            return None;
        }
        i += 1;
    }
    Some(papers)
}

} // verus!
