//! Reading the feed list of an OPML document.
use vstd::prelude::*;

use crate::text::{concat_str, lemma_trim_idempotent, trim, trim_spec};

verus! {

/// An attribute of an XML element.
pub struct XmlAttribute {
    /// The namespace URI, when the attribute's name has a prefix.
    pub namespace: Option<String>,
    /// The local name.
    pub name: String,
    pub value: String,
}

/// The mathematical content of an [`XmlAttribute`].
pub struct XmlAttributeView {
    pub namespace: Option<Seq<char>>,
    pub name: Seq<char>,
    pub value: Seq<char>,
}

impl View for XmlAttribute {
    type V = XmlAttributeView;

    open spec fn view(&self) -> XmlAttributeView {
        XmlAttributeView { namespace: self.namespace.deep_view(), name: self.name@, value: self.value@ }
    }
}

/// A node of an XML document: an element with its local name and
/// attributes, or another kind of node (with an empty name and no attributes).
pub struct XmlNode {
    pub is_element: bool,
    pub local_name: String,
    pub attributes: Vec<XmlAttribute>,
}

/// The mathematical content of an [`XmlNode`].
pub struct XmlNodeView {
    pub is_element: bool,
    pub local_name: Seq<char>,
    pub attributes: Seq<XmlAttributeView>,
}

impl View for XmlNode {
    type V = XmlNodeView;

    open spec fn view(&self) -> XmlNodeView {
        XmlNodeView {
            is_element: self.is_element,
            local_name: self.local_name@,
            attributes: self.attributes@.map_values(|a: XmlAttribute| a@),
        }
    }
}

/// The views of a list of nodes.
pub open spec fn nodes_view(nodes: Seq<XmlNode>) -> Seq<XmlNodeView> {
    nodes.map_values(|n: XmlNode| n@)
}

/// Names what `roxmltree::Document::parse` makes of a text: all the nodes of
/// the document in document order (as `Document::descendants` walks them), or
/// the text of its error.
pub uninterp spec fn xml_descendants(text: Seq<char>) -> Result<Seq<XmlNodeView>, Seq<char>>;

/// The mathematical content of a result of [`read_xml_nodes`].
pub open spec fn nodes_result_view(r: Result<Vec<XmlNode>, String>) -> Result<Seq<XmlNodeView>, Seq<char>> {
    match r {
        Ok(v) => Ok(nodes_view(v@)),
        Err(e) => Err(e@),
    }
}

/// Calls `roxmltree::Document::parse` and walks `Document::descendants`,
/// keeping of each node whether it is an element, its local name and its
/// attributes (namespace, local name, value); an error is kept by its text.
/// Claimed: the result is `xml_descendants` of the text.
#[verifier::external_body]
fn read_xml_nodes(text: &str) -> (r: Result<Vec<XmlNode>, String>)
    ensures
        nodes_result_view(r) == xml_descendants(text@),
{
    let doc = roxmltree::Document::parse(text).map_err(|e| e.to_string())?;
    Ok(doc.descendants().map(|n| XmlNode {
        is_element: n.is_element(),
        local_name: n.tag_name().name().to_string(),
        attributes: n.attributes().map(|a| XmlAttribute {
            namespace: a.namespace().map(|s| s.to_string()),
            name: a.name().to_string(),
            value: a.value().to_string(),
        }).collect(),
    }).collect())
}

/// A feed listed in an OPML document.
pub struct OpmlFeedEntry {
    pub url: String,
    pub title: Option<String>,
    pub site_url: Option<String>,
}

/// The mathematical content of an [`OpmlFeedEntry`].
pub struct OpmlEntryView {
    pub url: Seq<char>,
    pub title: Option<Seq<char>>,
    pub site_url: Option<Seq<char>>,
}

impl View for OpmlFeedEntry {
    type V = OpmlEntryView;

    open spec fn view(&self) -> OpmlEntryView {
        OpmlEntryView { url: self.url@, title: self.title.deep_view(), site_url: self.site_url.deep_view() }
    }
}

/// The views of a list of entries.
pub open spec fn entries_view(entries: Seq<OpmlFeedEntry>) -> Seq<OpmlEntryView> {
    entries.map_values(|e: OpmlFeedEntry| e@)
}

/// A copy of an entry.
pub fn clone_entry(e: &OpmlFeedEntry) -> (r: OpmlFeedEntry)
    ensures
        r@ == e@,
{
    OpmlFeedEntry {
        url: e.url.clone(),
        title: match &e.title {
            Some(t) => Some(t.clone()),
            None => None,
        },
        site_url: match &e.site_url {
            Some(t) => Some(t.clone()),
            None => None,
        },
    }
}

/// The value of the first attribute without namespace named `name`.
pub open spec fn attribute_spec(attrs: Seq<XmlAttributeView>, name: Seq<char>) -> Option<Seq<char>>
    decreases attrs.len(),
{
    if attrs.len() == 0 {
        None
    } else if attrs[0].namespace is None && attrs[0].name == name {
        Some(attrs[0].value)
    } else {
        attribute_spec(attrs.drop_first(), name)
    }
}

/// `a` when present, else `b`.
pub open spec fn or_spec(a: Option<Seq<char>>, b: Option<Seq<char>>) -> Option<Seq<char>> {
    if a is Some {
        a
    } else {
        b
    }
}

/// The value trimmed, kept only when something remains.
pub open spec fn trimmed_nonempty(v: Option<Seq<char>>) -> Option<Seq<char>> {
    match v {
        Some(x) => if trim_spec(x).len() > 0 {
            Some(trim_spec(x))
        } else {
            None
        },
        None => None,
    }
}

/// The feed listed by a node: an `outline` element with a non-blank feed
/// address in `xmlUrl`, else `xmlurl`, else `url`; its title from `title`,
/// else `text`; its site from `htmlUrl`, else `htmlurl`; all trimmed, and a
/// title or site that is blank counts as absent.
pub open spec fn outline_entry_spec(node: XmlNodeView) -> Option<OpmlEntryView> {
    let a = node.attributes;
    if !(node.is_element && node.local_name == "outline"@) {
        None
    } else {
        match or_spec(
            or_spec(attribute_spec(a, "xmlUrl"@), attribute_spec(a, "xmlurl"@)),
            attribute_spec(a, "url"@),
        ) {
            None => None,
            Some(u) => if trim_spec(u).len() == 0 {
                None
            } else {
                Some(
                    OpmlEntryView {
                        url: trim_spec(u),
                        title: trimmed_nonempty(
                            or_spec(attribute_spec(a, "title"@), attribute_spec(a, "text"@)),
                        ),
                        site_url: trimmed_nonempty(
                            or_spec(attribute_spec(a, "htmlUrl"@), attribute_spec(a, "htmlurl"@)),
                        ),
                    },
                )
            },
        }
    }
}

/// The feeds listed by the nodes, in document order.
pub open spec fn opml_entries_spec(nodes: Seq<XmlNodeView>) -> Seq<OpmlEntryView>
    decreases nodes.len(),
{
    if nodes.len() == 0 {
        seq![]
    } else {
        let prev = opml_entries_spec(nodes.drop_last());
        match outline_entry_spec(nodes.last()) {
            Some(e) => prev.push(e),
            None => prev,
        }
    }
}

/// The value of the first attribute without namespace named `name`.
pub fn attribute_of(attrs: &Vec<XmlAttribute>, name: &str) -> (r: Option<String>)
    ensures
        r.deep_view() == attribute_spec(attrs@.map_values(|a: XmlAttribute| a@), name@),
{
    let ghost all = attrs@.map_values(|a: XmlAttribute| a@);
    let wanted = String::from_str(name);
    let n = attrs.len();
    let mut i: usize = 0;
    assert(all.subrange(0, n as int) =~= all);
    while i < n
        invariant
            n == attrs.len(),
            i <= n,
            wanted@ == name@,
            all == attrs@.map_values(|a: XmlAttribute| a@),
            attribute_spec(all, name@) == attribute_spec(all.subrange(i as int, n as int), name@),
        decreases n - i,
    {
        let a = &attrs[i];
        assert(all.subrange(i as int, n as int)[0] == a@);
        if a.namespace.is_none() && a.name == wanted {
            return Some(a.value.clone());
        }
        assert(all.subrange(i as int, n as int).drop_first() =~= all.subrange(i + 1, n as int));
        i = i + 1;
    }
    None
}

fn first_attribute(attrs: &Vec<XmlAttribute>, first: &str, second: &str) -> (r: Option<String>)
    ensures
        r.deep_view() == or_spec(
            attribute_spec(attrs@.map_values(|a: XmlAttribute| a@), first@),
            attribute_spec(attrs@.map_values(|a: XmlAttribute| a@), second@),
        ),
{
    match attribute_of(attrs, first) {
        Some(v) => Some(v),
        None => attribute_of(attrs, second),
    }
}

fn trim_nonempty(v: Option<String>) -> (r: Option<String>)
    ensures
        r.deep_view() == trimmed_nonempty(v.deep_view()),
{
    match v {
        Some(x) => {
            let t = trim(x.as_str());
            if t.as_str().is_empty() {
                None
            } else {
                Some(t)
            }
        },
        None => None,
    }
}

/// The feed that a node lists, if it is an `outline` element with a
/// non-blank feed address.
pub fn outline_entry(node: &XmlNode) -> (r: Option<OpmlFeedEntry>)
    ensures
        match r {
            Some(e) => outline_entry_spec(node@) == Some(e@),
            None => outline_entry_spec(node@) is None,
        },
{
    let ghost a = node@.attributes;
    if !(node.is_element && node.local_name == String::from_str("outline")) {
        return None;
    }
    let url = match first_attribute(&node.attributes, "xmlUrl", "xmlurl") {
        Some(u) => Some(u),
        None => attribute_of(&node.attributes, "url"),
    };
    let url = match url {
        Some(u) => trim(u.as_str()),
        None => {
            return None;
        },
    };
    if url.as_str().is_empty() {
        return None;
    }
    let title = trim_nonempty(first_attribute(&node.attributes, "title", "text"));
    let site_url = trim_nonempty(first_attribute(&node.attributes, "htmlUrl", "htmlurl"));
    Some(OpmlFeedEntry { url, title, site_url })
}

/// The feeds listed by the nodes of an OPML document, in document order.
pub fn opml_entries_of(nodes: &Vec<XmlNode>) -> (r: Vec<OpmlFeedEntry>)
    ensures
        entries_view(r@) == opml_entries_spec(nodes_view(nodes@)),
{
    let ghost all = nodes_view(nodes@);
    let mut out: Vec<OpmlFeedEntry> = Vec::new();
    let n = nodes.len();
    for i in 0..n
        invariant
            n == nodes.len(),
            all == nodes_view(nodes@),
            entries_view(out@) == opml_entries_spec(all.take(i as int)),
    {
        assert(all.take(i + 1).drop_last() =~= all.take(i as int));
        assert(all.take(i + 1).last() == nodes@[i as int]@);
        let ghost before = out@;
        match outline_entry(&nodes[i]) {
            Some(e) => {
                out.push(e);
                assert(entries_view(out@) =~= entries_view(before).push(e@));
            },
            None => {},
        }
    }
    assert(all.take(n as int) =~= all);
    out
}

/// What reading the feed list of an OPML text gives: the listed feeds, or
/// `Invalid OPML/XML: ` with the parser's message when the text is not XML,
/// or `No feed URLs found in OPML file` when it lists none.
pub open spec fn extract_opml_spec(text: Seq<char>) -> Result<Seq<OpmlEntryView>, Seq<char>> {
    match xml_descendants(text) {
        Err(e) => Err("Invalid OPML/XML: "@ + e),
        Ok(nodes) => {
            let es = opml_entries_spec(nodes);
            if es.len() == 0 {
                Err("No feed URLs found in OPML file"@)
            } else {
                Ok(es)
            }
        },
    }
}

/// The mathematical content of a result of [`extract_opml_feed_entries`].
pub open spec fn entries_result_view(r: Result<Vec<OpmlFeedEntry>, String>) -> Result<
    Seq<OpmlEntryView>,
    Seq<char>,
> {
    match r {
        Ok(v) => Ok(entries_view(v@)),
        Err(e) => Err(e@),
    }
}

/// The feeds that an OPML document lists, in document order, from its
/// `outline` elements at any depth.
pub fn extract_opml_feed_entries(opml_content: &str) -> (r: Result<Vec<OpmlFeedEntry>, String>)
    ensures
        entries_result_view(r) == extract_opml_spec(opml_content@),
{
    let nodes = match read_xml_nodes(opml_content) {
        Ok(nodes) => nodes,
        Err(e) => {
            return Err(concat_str("Invalid OPML/XML: ", e.as_str()));
        },
    };
    let entries = opml_entries_of(&nodes);
    if entries.len() == 0 {
        return Err(String::from_str("No feed URLs found in OPML file"));
    }
    Ok(entries)
}

/// Some entry of `entries` has the address `url`.
pub open spec fn url_listed(entries: Seq<OpmlEntryView>, url: Seq<char>) -> bool {
    exists|i: int| 0 <= i < entries.len() && (#[trigger] entries[i]).url == url
}

/// The entries with repeated addresses dropped: of each address the first
/// entry stays, in their order of appearance.
pub open spec fn unique_by_url_spec(entries: Seq<OpmlEntryView>) -> Seq<OpmlEntryView>
    decreases entries.len(),
{
    if entries.len() == 0 {
        seq![]
    } else {
        let prev = unique_by_url_spec(entries.drop_last());
        if url_listed(prev, entries.last().url) {
            prev
        } else {
            prev.push(entries.last())
        }
    }
}

fn url_already_listed(out: &Vec<OpmlFeedEntry>, url: &String) -> (r: bool)
    ensures
        r == url_listed(entries_view(out@), url@),
{
    let ghost outs = entries_view(out@);
    let n = out.len();
    let mut i: usize = 0;
    while i < n
        invariant
            n == out.len(),
            i <= n,
            outs == entries_view(out@),
            forall|k: int| 0 <= k < i ==> (#[trigger] outs[k]).url != url@,
        decreases n - i,
    {
        if out[i].url == *url {
            assert(outs[i as int].url == url@);
            return true;
        }
        i = i + 1;
    }
    false
}

/// The entries with repeated feed addresses dropped: of each address the
/// first entry stays, and the order is kept.
pub fn unique_by_url(entries: &Vec<OpmlFeedEntry>) -> (r: Vec<OpmlFeedEntry>)
    ensures
        entries_view(r@) == unique_by_url_spec(entries_view(entries@)),
{
    let ghost all = entries_view(entries@);
    let mut out: Vec<OpmlFeedEntry> = Vec::new();
    let n = entries.len();
    for i in 0..n
        invariant
            n == entries.len(),
            all == entries_view(entries@),
            entries_view(out@) == unique_by_url_spec(all.take(i as int)),
    {
        assert(all.take(i + 1).drop_last() =~= all.take(i as int));
        assert(all.take(i + 1).last() == entries@[i as int]@);
        let e = &entries[i];
        if !url_already_listed(&out, &e.url) {
            let ghost before = out@;
            out.push(clone_entry(e));
            assert(entries_view(out@) =~= entries_view(before).push(e@));
        }
    }
    assert(all.take(n as int) =~= all);
    out
}

/// `idx` picks, in increasing order, the positions of `entries` at which the
/// entries of `res` stand, each the first position of its address.
pub open spec fn first_occurrences(
    entries: Seq<OpmlEntryView>,
    res: Seq<OpmlEntryView>,
    idx: Seq<int>,
) -> bool {
    &&& idx.len() == res.len()
    &&& forall|k: int|
        0 <= k < idx.len() ==> 0 <= #[trigger] idx[k] < entries.len() && entries[idx[k]] == res[k]
            && !url_listed(entries.take(idx[k]), res[k].url)
    &&& forall|k1: int, k2: int| 0 <= k1 < k2 < idx.len() ==> #[trigger] idx[k1] < #[trigger] idx[k2]
}

/// Dropping repeated feed addresses leaves no address twice, keeps every
/// address that occurs, and keeps exactly the first entry of each address,
/// in the order in which they stand.
pub proof fn unique_by_url_law(entries: Seq<OpmlEntryView>)
    ensures
        forall|i: int, j: int|
            0 <= i < j < unique_by_url_spec(entries).len() ==> (#[trigger] unique_by_url_spec(
                entries,
            )[i]).url != (#[trigger] unique_by_url_spec(entries)[j]).url,
        forall|i: int|
            0 <= i < entries.len() ==> url_listed(
                unique_by_url_spec(entries),
                (#[trigger] entries[i]).url,
            ),
        exists|idx: Seq<int>| first_occurrences(entries, unique_by_url_spec(entries), idx),
    decreases entries.len(),
{
    if entries.len() == 0 {
        assert(first_occurrences(entries, unique_by_url_spec(entries), Seq::<int>::empty()));
    } else {
        let init = entries.drop_last();
        unique_by_url_law(init);
        let prev = unique_by_url_spec(init);
        let last = entries.last();
        let res = unique_by_url_spec(entries);
        assert forall|i: int| 0 <= i < entries.len() implies url_listed(
            res,
            (#[trigger] entries[i]).url,
        ) by {
            if i < entries.len() - 1 {
                assert(init[i] == entries[i]);
                let w = choose|w: int| 0 <= w < prev.len() && (#[trigger] prev[w]).url == init[i].url;
                assert(res[w] == prev[w]);
            } else if url_listed(prev, last.url) {
            } else {
                assert(res[prev.len() as int] == last);
            }
        }
        let idx0 = choose|idx: Seq<int>| first_occurrences(init, prev, idx);
        assert forall|k: int| 0 <= k < idx0.len() implies entries.take(#[trigger] idx0[k])
            =~= init.take(idx0[k]) && entries[idx0[k]] == init[idx0[k]] by {}
        if url_listed(prev, last.url) {
            assert(first_occurrences(entries, res, idx0));
        } else {
            let idx = idx0.push(entries.len() - 1);
            assert(entries.take(entries.len() - 1) =~= init);
            assert forall|t: int| 0 <= t < init.len() implies (#[trigger] init[t]).url != last.url by {
                if init[t].url == last.url {
                    let w = choose|w: int|
                        0 <= w < prev.len() && (#[trigger] prev[w]).url == init[t].url;
                    assert(url_listed(prev, last.url));
                }
            }
            assert forall|k: int| 0 <= k < idx.len() implies 0 <= #[trigger] idx[k] < entries.len()
                && entries[idx[k]] == res[k] && !url_listed(entries.take(idx[k]), res[k].url) by {
                if k < idx0.len() {
                    assert(idx[k] == idx0[k]);
                    assert(res[k] == prev[k]);
                } else {
                    assert(res[k] == last);
                }
            }
            assert forall|k1: int, k2: int| 0 <= k1 < k2 < idx.len() implies #[trigger] idx[k1]
                < #[trigger] idx[k2] by {
                if k2 < idx0.len() {
                    assert(idx[k1] == idx0[k1] && idx[k2] == idx0[k2]);
                } else {
                    assert(idx[k1] == idx0[k1]);
                }
            }
            assert(first_occurrences(entries, res, idx));
        }
    }
}

/// A text that is non-empty and has nothing to trim.
pub open spec fn is_trimmed_nonempty(s: Seq<char>) -> bool {
    s.len() > 0 && trim_spec(s) == s
}

/// Every feed read from an OPML document has a non-blank address with no
/// white space around it, and a title or site, when present, is likewise
/// non-blank and trimmed.
pub proof fn opml_entries_are_trimmed(nodes: Seq<XmlNodeView>)
    ensures
        forall|i: int|
            0 <= i < opml_entries_spec(nodes).len() ==> {
                let e = #[trigger] opml_entries_spec(nodes)[i];
                &&& is_trimmed_nonempty(e.url)
                &&& e.title matches Some(t) ==> is_trimmed_nonempty(t)
                &&& e.site_url matches Some(u) ==> is_trimmed_nonempty(u)
            },
    decreases nodes.len(),
{
    if nodes.len() > 0 {
        opml_entries_are_trimmed(nodes.drop_last());
        let n = nodes.last();
        let a = n.attributes;
        let url = or_spec(
            or_spec(attribute_spec(a, "xmlUrl"@), attribute_spec(a, "xmlurl"@)),
            attribute_spec(a, "url"@),
        );
        let title = or_spec(attribute_spec(a, "title"@), attribute_spec(a, "text"@));
        let site = or_spec(attribute_spec(a, "htmlUrl"@), attribute_spec(a, "htmlurl"@));
        if let Some(u) = url {
            lemma_trim_idempotent(u);
        }
        if let Some(t) = title {
            lemma_trim_idempotent(t);
        }
        if let Some(t) = site {
            lemma_trim_idempotent(t);
        }
    }
}

} // verus!
