//! The chart data model and its mathematical view.

use vstd::prelude::*;

verus! {

/// Mathematical value of a [`Section`].
pub struct SectionView {
    pub name: Seq<char>,
    pub content: Seq<char>,
}

/// Mathematical value of a [`Chart`]. The order of `sections` is the order in
/// which the chart's source declares them.
pub struct ChartView {
    pub title: Seq<char>,
    pub sections: Seq<SectionView>,
}

/// A named block of free text within a chart.
#[derive(Debug, Clone, PartialEq, Eq)]
pub struct Section {
    pub name: String,
    pub content: String,
}

/// A titled, ordered list of sections, read from one source file.
#[derive(Debug, Clone, PartialEq, Eq)]
pub struct Chart {
    pub title: String,
    pub sections: Vec<Section>,
}

/// The charts of one page, in the order in which the page lists them.
#[derive(Debug, Clone, PartialEq, Eq)]
pub struct PageContext {
    pub charts: Vec<Chart>,
}

impl View for Section {
    type V = SectionView;

    open spec fn view(&self) -> SectionView {
        SectionView { name: self.name@, content: self.content@ }
    }
}

impl View for Chart {
    type V = ChartView;

    open spec fn view(&self) -> ChartView {
        ChartView { title: self.title@, sections: sections_view(self.sections@) }
    }
}

impl View for PageContext {
    type V = Seq<ChartView>;

    open spec fn view(&self) -> Seq<ChartView> {
        charts_view(self.charts@)
    }
}

/// The values of a list of sections, position by position.
pub open spec fn sections_view(sections: Seq<Section>) -> Seq<SectionView> {
    Seq::new(sections.len(), |i: int| sections[i]@)
}

/// The values of a list of charts, position by position.
pub open spec fn charts_view(charts: Seq<Chart>) -> Seq<ChartView> {
    Seq::new(charts.len(), |i: int| charts[i]@)
}

} // verus!
