//! From a document to a chart: the schema of a chart file.
//!
//! A chart file is a TOML table with a string `title` and an array `sections`
//! of tables, each with a string `name` and a string `content`. Other keys are
//! ignored.

use vstd::prelude::*;
use vstd::string::*;
use crate::chart::{sections_view, Chart, ChartView, Section, SectionView};
use crate::document::{
    entries_view, items_view, lemma_array_view, lemma_table_view, parse_document, toml_document,
    Node, NodeView,
};
use crate::error::{PageError, PageErrorView};

verus! {

/// The value of the first entry under `key`, if there is one.
pub open spec fn field(entries: Seq<(Seq<char>, NodeView)>, key: Seq<char>) -> Option<NodeView>
    decreases entries.len(),
{
    if entries.len() == 0 {
        None
    } else if entries[0].0 == key {
        Some(entries[0].1)
    } else {
        field(entries.drop_first(), key)
    }
}

/// The section that a node describes: a table whose `name` and `content` are
/// strings.
pub open spec fn section_of(node: NodeView) -> Option<SectionView> {
    match node {
        NodeView::Table(entries) => match (field(entries, "name"@), field(entries, "content"@)) {
            (Some(NodeView::String(name)), Some(NodeView::String(content))) => Some(
                SectionView { name, content },
            ),
            _ => None,
        },
        _ => None,
    }
}

/// The sections that the items of an array describe, in the array's order;
/// `None` where an item describes no section.
pub open spec fn sections_of(items: Seq<NodeView>) -> Option<Seq<SectionView>> {
    if forall|i: int| 0 <= i < items.len() ==> (#[trigger] section_of(items[i])).is_some() {
        Some(Seq::new(items.len(), |i: int| section_of(items[i]).unwrap()))
    } else {
        None
    }
}

/// The chart that a document describes: a table whose `title` is a string and
/// whose `sections` is an array of sections.
pub open spec fn chart_of(doc: NodeView) -> Option<ChartView> {
    match doc {
        NodeView::Table(entries) => match (field(entries, "title"@), field(entries, "sections"@)) {
            (Some(NodeView::String(title)), Some(NodeView::Array(items))) => match sections_of(
                items,
            ) {
                Some(sections) => Some(ChartView { title, sections }),
                None => None,
            },
            _ => None,
        },
        _ => None,
    }
}

/// The chart that a file's text describes.
pub open spec fn chart_in(text: Seq<char>) -> Option<ChartView> {
    match toml_document(text) {
        Some(doc) => chart_of(doc),
        None => None,
    }
}

/// Looks a key up in the entries of a table.
fn find<'a>(entries: &'a Vec<(String, Node)>, key: &str) -> (found: Option<&'a Node>)
    ensures
        match found {
            Some(node) => field(entries_view(entries@), key@) == Some(node@),
            None => field(entries_view(entries@), key@).is_none(),
        },
{
    let wanted = String::from_str(key);
    let ghost all = entries_view(entries@);
    let mut i: usize = 0;
    assert(all.skip(0) =~= all);
    while i < entries.len()
        invariant
            i <= entries.len(),
            wanted@ == key@,
            all == entries_view(entries@),
            field(all, key@) == field(all.skip(i as int), key@),
        decreases entries.len() - i,
    {
        proof {
            assert(all.skip(i as int).drop_first() =~= all.skip(i as int + 1));
        }
        if entries[i].0 == wanted {
            return Some(&entries[i].1);
        }
        i += 1;
    }
    None
}

/// Reads a section from a node.
pub fn section_from_node(node: &Node) -> (section: Option<Section>)
    ensures
        match section {
            Some(s) => section_of(node@) == Some(s@),
            None => section_of(node@).is_none(),
        },
{
    match node {
        Node::Table(entries) => {
            proof {
                lemma_table_view(*entries);
            }
            match (find(entries, "name"), find(entries, "content")) {
                (Some(Node::String(name)), Some(Node::String(content))) => Some(
                    Section { name: name.clone(), content: content.clone() },
                ),
                _ => None,
            }
        },
        _ => None,
    }
}

/// Reads the sections of a chart from the items of an array, in the array's
/// order.
pub fn sections_from_items(items: &Vec<Node>) -> (sections: Option<Vec<Section>>)
    ensures
        match sections {
            Some(list) => sections_of(items_view(items@)) == Some(sections_view(list@)),
            None => sections_of(items_view(items@)).is_none(),
        },
{
    let mut list: Vec<Section> = Vec::new();
    let mut i: usize = 0;
    while i < items.len()
        invariant
            i <= items.len(),
            list.len() == i,
            forall|j: int|
                0 <= j < i ==> section_of(#[trigger] items_view(items@)[j]) == Some(list[j]@),
        decreases items.len() - i,
    {
        match section_from_node(&items[i]) {
            Some(section) => {
                list.push(section);
            },
            None => {
                assert(section_of(items_view(items@)[i as int]).is_none());
                return None;
            },
        }
        i += 1;
    }
    assert(sections_of(items_view(items@)).unwrap() =~= sections_view(list@));
    Some(list)
}

/// Reads a chart from a document.
pub fn chart_from_document(doc: &Node) -> (chart: Option<Chart>)
    ensures
        match chart {
            Some(c) => chart_of(doc@) == Some(c@),
            None => chart_of(doc@).is_none(),
        },
{
    match doc {
        Node::Table(entries) => {
            proof {
                lemma_table_view(*entries);
            }
            match (find(entries, "title"), find(entries, "sections")) {
                (Some(Node::String(title)), Some(Node::Array(items))) => {
                    proof {
                        lemma_array_view(*items);
                    }
                    match sections_from_items(items) {
                        Some(sections) => Some(Chart { title: title.clone(), sections }),
                        None => None,
                    }
                },
                _ => None,
            }
        },
        _ => None,
    }
}

/// Reads the chart that the file at `path` holds as `content`. Fails with
/// [`PageError::ParseError`], naming `path`, where `content` is not TOML or
/// describes no chart.
pub fn parse_chart(path: &str, content: &str) -> (outcome: Result<Chart, PageError>)
    ensures
        match outcome {
            Ok(chart) => chart_in(content@) == Some(chart@),
            Err(error) => chart_in(content@).is_none() && error@ == PageErrorView::ParseError(
                path@,
            ),
        },
{
    let parsed = match parse_document(content) {
        Some(doc) => chart_from_document(&doc),
        None => None,
    };
    match parsed {
        Some(chart) => Ok(chart),
        None => Err(PageError::ParseError(String::from_str(path))),
    }
}

/// The sections of a chart are the section items of its document, each at the
/// position at which the document declares it: none is moved, merged or
/// dropped.
pub proof fn lemma_sections_keep_declared_order(doc: NodeView)
    requires
        chart_of(doc).is_some(),
    ensures
        doc is Table,
        field(doc->Table_0, "sections"@) matches Some(NodeView::Array(items)) && {
            let sections = chart_of(doc).unwrap().sections;
            &&& sections.len() == items.len()
            &&& forall|i: int|
                0 <= i < items.len() ==> section_of(items[i]) == Some(#[trigger] sections[i])
        },
{
}

} // verus!
