//! Gantt chart pages.
//!
//! A chart is a TOML file with a title and an ordered list of named sections.
//! The files of one folder are parsed, ordered by file name and handed to the
//! template of the index page, which renders them as one HTML page. A request
//! that cannot be answered with the page is answered with a message that says
//! why.
//!
//! - [`chart`]: the charts and their sections.
//! - [`document`]: TOML texts as trees of plain values.
//! - [`parser`]: from a tree to a chart.
//! - [`ordering`]: the order of file names.
//! - [`aggregator`]: the order of the charts on the page.
//! - [`renderer`]: the template and what it is evaluated on.
//! - [`error`]: the failures and their messages.
//! - [`endpoint`]: one request, from the scan of the folder to the response.
//!
//! Reading the folder and serving the page are left to the caller.

pub mod aggregator;
pub mod chart;
pub mod document;
pub mod endpoint;
pub mod error;
pub mod ordering;
pub mod parser;
pub mod renderer;
