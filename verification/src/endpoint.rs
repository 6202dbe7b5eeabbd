//! One request for the index page: from what the scan of the desktop found
//! to the body of the response.

use vstd::prelude::*;
use vstd::string::*;
use crate::aggregator::{aggregate, aggregated, lemma_aggregated_unique, named_charts};
use crate::chart::{Chart, ChartView, PageContext};
use crate::error::{message_text, PageError, PageErrorView};
use crate::parser::{chart_in, parse_chart};
use crate::renderer::{index_page, page_view, rendered_page, IndexTemplate};

verus! {

/// Mathematical value of a [`SourceFile`].
pub struct SourceFileView {
    pub path: Seq<char>,
    pub file_name: Seq<char>,
    pub content: Option<Seq<char>>,
}

/// One file of the chart folder, as far as it could be read from disk.
#[derive(Debug, Clone, PartialEq, Eq)]
pub struct SourceFile {
    /// Where the file lies; named when the file is reported.
    pub path: String,
    /// The last component of `path`; decides the chart's place on the page.
    pub file_name: String,
    /// The text of the file; `None` where the file could not be read.
    pub content: Option<String>,
}

impl View for SourceFile {
    type V = SourceFileView;

    open spec fn view(&self) -> SourceFileView {
        SourceFileView {
            path: self.path@,
            file_name: self.file_name@,
            content: match self.content {
                Some(text) => Some(text@),
                None => None,
            },
        }
    }
}

/// Mathematical value of a [`Scan`].
pub enum ScanView {
    MissingDesktop,
    MissingFolder,
    Files(Seq<SourceFileView>),
}

/// What the scan of the desktop found.
#[derive(Debug, Clone, PartialEq, Eq)]
pub enum Scan {
    /// The platform could not resolve the desktop folder.
    MissingDesktop,
    /// The chart folder is absent from the desktop, or cannot be listed.
    MissingFolder,
    /// The files of the chart folder, in the order in which the file system
    /// gave them.
    Files(Vec<SourceFile>),
}

impl View for Scan {
    type V = ScanView;

    open spec fn view(&self) -> ScanView {
        match self {
            Scan::MissingDesktop => ScanView::MissingDesktop,
            Scan::MissingFolder => ScanView::MissingFolder,
            Scan::Files(files) => ScanView::Files(files_view(files@)),
        }
    }
}

/// The values of a list of files, position by position.
pub open spec fn files_view(files: Seq<SourceFile>) -> Seq<SourceFileView> {
    Seq::new(files.len(), |i: int| files[i]@)
}

/// The name of the folder on the desktop that holds the chart files.
pub open spec fn chart_folder() -> Seq<char> {
    "gantt"@
}

/// The chart that a file holds; `None` where the file could not be read or
/// its text describes no chart.
pub open spec fn file_chart(file: SourceFileView) -> Option<ChartView> {
    match file.content {
        Some(text) => chart_in(text),
        None => None,
    }
}

/// The failure that reports a file without a chart, by its path: the file
/// could not be read, or it is malformed.
pub open spec fn file_failure(file: SourceFileView) -> PageErrorView {
    match file.content {
        Some(_) => PageErrorView::ParseError(file.path),
        None => PageErrorView::FileReadError(file.path),
    }
}

/// Whether every file holds a chart.
pub open spec fn all_parse(files: Seq<SourceFileView>) -> bool {
    forall|i: int| 0 <= i < files.len() ==> file_chart(#[trigger] files[i]).is_some()
}

/// Whether file `i` is the first that holds no chart.
pub open spec fn fails_first_at(files: Seq<SourceFileView>, i: int) -> bool {
    &&& 0 <= i < files.len()
    &&& file_chart(files[i]).is_none()
    &&& forall|j: int| 0 <= j < i ==> file_chart(#[trigger] files[j]).is_some()
}

/// The file name and the chart of each file, position by position.
pub open spec fn parsed_entries(files: Seq<SourceFileView>) -> Seq<(Seq<char>, ChartView)> {
    Seq::new(files.len(), |i: int| (files[i].file_name, file_chart(files[i]).unwrap()))
}

/// Whether `error` is the failure that the scan leads to: the desktop or the
/// folder is missing, or a file holds no chart, and then the first such file
/// in the listing is reported by its path, as unreadable or as malformed.
pub open spec fn scan_failure(scan: ScanView, error: PageErrorView) -> bool {
    match scan {
        ScanView::MissingDesktop => error == PageErrorView::MissingBaseDirectory,
        ScanView::MissingFolder => error == PageErrorView::TargetDirectoryNotFound(chart_folder()),
        ScanView::Files(files) => files_failure(files, error),
    }
}

/// Whether `error` reports the first file that holds no chart.
pub open spec fn files_failure(files: Seq<SourceFileView>, error: PageErrorView) -> bool {
    exists|i: int| #[trigger] fails_first_at(files, i) && error == file_failure(files[i])
}

/// Whether `charts` are the charts of the page that the scan leads to: every
/// file holds a chart, and the charts stand in ascending order of file name.
pub open spec fn scan_charts(scan: ScanView, charts: Seq<ChartView>) -> bool {
    &&& scan matches ScanView::Files(files)
    &&& all_parse(files)
    &&& aggregated(parsed_entries(files), charts)
}

/// Whether the scan leads to a page at all.
pub open spec fn scan_succeeds(scan: ScanView) -> bool {
    scan matches ScanView::Files(files) && all_parse(files)
}

/// The name of the folder on the desktop that holds the chart files.
pub fn folder_name() -> (name: &'static str)
    ensures
        name@ == chart_folder(),
{
    "gantt"
}

/// Parses every file, in the given order, and pairs each chart with its
/// file's name. Stops at the first file that holds no chart and fails, naming
/// that file's path: with [`PageError::FileReadError`] where the file could not
/// be read, with [`PageError::ParseError`] where its text is no chart.
pub fn collect_charts(files: &Vec<SourceFile>) -> (outcome: Result<Vec<(String, Chart)>, PageError>)
    ensures
        match outcome {
            Ok(entries) => all_parse(files_view(files@)) && named_charts(entries@)
                == parsed_entries(files_view(files@)),
            Err(error) => files_failure(files_view(files@), error@),
        },
{
    let mut entries: Vec<(String, Chart)> = Vec::new();
    let mut i: usize = 0;
    while i < files.len()
        invariant
            i <= files.len(),
            entries.len() == i,
            forall|j: int|
                0 <= j < i ==> file_chart(#[trigger] files_view(files@)[j]) == Some(
                    entries[j].1@,
                ),
            forall|j: int| 0 <= j < i ==> (#[trigger] entries[j]).0@ == files[j].file_name@,
        decreases files.len() - i,
    {
        let file = &files[i];
        let parsed = match &file.content {
            Some(text) => parse_chart(file.path.as_str(), text.as_str()),
            None => Err(PageError::FileReadError(file.path.clone())),
        };
        match parsed {
            Ok(chart) => {
                entries.push((file.file_name.clone(), chart));
            },
            Err(error) => {
                assert(fails_first_at(files_view(files@), i as int));
                return Err(error);
            },
        }
        i += 1;
    }
    assert(named_charts(entries@) =~= parsed_entries(files_view(files@)));
    Ok(entries)
}

/// The charts of the page, in the order in which the page lists them, or the
/// failure that the scan leads to.
pub fn page_context(scan: &Scan) -> (outcome: Result<PageContext, PageError>)
    ensures
        match outcome {
            Ok(page) => scan_charts(scan@, page@),
            Err(error) => scan_failure(scan@, error@),
        },
{
    match scan {
        Scan::MissingDesktop => Err(PageError::MissingBaseDirectory),
        Scan::MissingFolder => Err(
            PageError::TargetDirectoryNotFound(String::from_str(folder_name())),
        ),
        Scan::Files(files) => match collect_charts(files) {
            Ok(entries) => Ok(PageContext { charts: aggregate(entries) }),
            Err(error) => Err(error),
        },
    }
}

/// Whether `page` answers a request whose scan found `scan`. A scan that
/// fails is answered with its failure. A scan that succeeds is answered with
/// what the index template makes of its charts: the page, or the engine's
/// failure as a template failure.
pub open spec fn is_answer(scan: ScanView, page: Result<Seq<char>, PageErrorView>) -> bool {
    if scan_succeeds(scan) {
        exists|charts: Seq<ChartView>| #[trigger]
            scan_charts(scan, charts) && page == rendered_page(index_page(charts))
    } else {
        page matches Err(error) && scan_failure(scan, error)
    }
}

/// Answers one request for the index page. Fails as [`page_context`] does;
/// otherwise the index template is evaluated on the charts, and the page is
/// what the engine makes of them: its text, or its failure as a
/// [`PageError::Template`].
pub fn server_index(template: &IndexTemplate, scan: &Scan) -> (page: Result<String, PageError>)
    ensures
        is_answer(scan@, page_view(page)),
{
    match page_context(scan) {
        Ok(context) => template.render(&context),
        Err(error) => {
            proof {
                lemma_failure_excludes_page(scan@, error@);
            }
            Err(error)
        },
    }
}

/// The body of the response: the page, or the message that reports why there
/// is none. Either is sent as HTML with a success status.
pub fn response_body(page: Result<String, PageError>) -> (body: String)
    ensures
        match page {
            Ok(html) => body == html,
            Err(error) => body@ == message_text(error@),
        },
{
    match page {
        Ok(html) => html,
        Err(error) => error.message(),
    }
}

/// A scan that fails leads to no page, and it fails in one way only.
pub proof fn lemma_failure_excludes_page(scan: ScanView, error: PageErrorView)
    requires
        scan_failure(scan, error),
    ensures
        !scan_succeeds(scan),
        forall|charts: Seq<ChartView>| !scan_charts(scan, charts),
        forall|other: PageErrorView| scan_failure(scan, other) ==> other == error,
{
    if let ScanView::Files(files) = scan {
        let i = choose|i: int| #[trigger] fails_first_at(files, i) && error == file_failure(files[i]);
        assert forall|other: PageErrorView| files_failure(files, other) implies other == error by {
            let k = choose|k: int| #[trigger]
                fails_first_at(files, k) && other == file_failure(files[k]);
            assert(k == i);
        }
    }
}

/// A request has one answer only.
pub proof fn lemma_answer_unique(
    scan: ScanView,
    first: Result<Seq<char>, PageErrorView>,
    second: Result<Seq<char>, PageErrorView>,
)
    requires
        is_answer(scan, first),
        is_answer(scan, second),
    ensures
        first == second,
{
    if scan_succeeds(scan) {
        let a = choose|charts: Seq<ChartView>| #[trigger]
            scan_charts(scan, charts) && first == rendered_page(index_page(charts));
        let b = choose|charts: Seq<ChartView>| #[trigger]
            scan_charts(scan, charts) && second == rendered_page(index_page(charts));
        lemma_aggregated_unique(parsed_entries(scan->Files_0), a, b);
    } else {
        lemma_failure_excludes_page(scan, first->Err_0);
    }
}

/// One file that holds no chart, unreadable or malformed, fails the whole
/// page: no charts are listed, and the failure names the path of the first
/// such file.
pub proof fn lemma_one_malformed_file_fails_page(files: Seq<SourceFileView>, k: int) -> (first: int)
    requires
        0 <= k < files.len(),
        file_chart(files[k]).is_none(),
    ensures
        0 <= first <= k,
        fails_first_at(files, first),
        scan_failure(ScanView::Files(files), file_failure(files[first])),
        !scan_succeeds(ScanView::Files(files)),
        forall|charts: Seq<ChartView>| !scan_charts(ScanView::Files(files), charts),
    decreases k,
{
    if exists|j: int| 0 <= j < k && file_chart(#[trigger] files[j]).is_none() {
        let earlier = choose|j: int| 0 <= j < k && file_chart(#[trigger] files[j]).is_none();
        lemma_one_malformed_file_fails_page(files, earlier)
    } else {
        assert(fails_first_at(files, k));
        k
    }
}

/// A folder without files leads to a page without charts, not to a failure.
pub proof fn lemma_empty_folder_lists_no_charts(charts: Seq<ChartView>, error: PageErrorView)
    ensures
        scan_succeeds(ScanView::Files(Seq::empty())),
        !scan_failure(ScanView::Files(Seq::empty()), error),
        scan_charts(ScanView::Files(Seq::empty()), charts) <==> charts == Seq::<ChartView>::empty(),
{
    let files = Seq::<SourceFileView>::empty();
    let entries = parsed_entries(files);
    let none = Seq::<int>::empty();
    assert(crate::aggregator::is_listing_order(entries, none));
    assert(crate::aggregator::charts_in_order(entries, none) =~= Seq::<ChartView>::empty());
    if scan_charts(ScanView::Files(files), charts) {
        let order = choose|order: Seq<int>| #[trigger]
            crate::aggregator::is_listing_order(entries, order) && charts
                == crate::aggregator::charts_in_order(entries, order);
        assert(charts =~= Seq::<ChartView>::empty());
    }
}

} // verus!
